//! The snake game's world model: a toroidal grid of cells, a critter that
//! crawls across it one cell per tick, food that makes it grow, and the
//! collision rule that ends a game. Drawing the grid and reading the keys
//! stay with the surrounding application.

use vstd::prelude::*;

use vstd::array::spec_array_update;

verus! {

/// The four directions the critter can head.
#[derive(Debug, Clone, Copy, PartialEq, Eq, Structural)]
pub enum Direction {
    Up,
    Down,
    Left,
    Right,
}

/// The direction pointing back the way `d` points.
pub open spec fn spec_opposite(d: Direction) -> Direction {
    match d {
        Direction::Up => Direction::Down,
        Direction::Down => Direction::Up,
        Direction::Left => Direction::Right,
        Direction::Right => Direction::Left,
    }
}

impl Direction {
    /// The direction pointing back the way this one points.
    pub fn opposite(&self) -> (r: Direction)
        ensures
            r == spec_opposite(*self),
    {
        match self {
            Direction::Up => Direction::Down,
            Direction::Down => Direction::Up,
            Direction::Left => Direction::Right,
            Direction::Right => Direction::Left,
        }
    }
}

/// What the critter's head is about to run into.
#[derive(Debug, Clone, Copy, PartialEq, Eq, Structural)]
pub enum Collision {
    Nothing,
    Food,
    Critter,
}

/// One cell of the grid: empty, part of the critter (with the direction
/// that body segment is moving and whether it has food in it), or food.
#[derive(Debug, Clone, Copy, PartialEq, Eq, Structural)]
pub enum Cell {
    Empty,
    Critter(Direction, bool),
    Food,
}

impl Default for Cell {
    fn default() -> (c: Cell)
        ensures
            c == Cell::Empty,
    {
        Cell::Empty
    }
}

/// One row of twenty cells.
#[derive(Clone, Copy, PartialEq, Eq)]
pub struct Row(pub [Cell; 20]);

impl Default for Row {
    fn default() -> (r: Row)
        ensures
            forall|c: int| 0 <= c < 20 ==> r.0[c] == Cell::Empty,
    {
        Row([Cell::Empty;20])
    }
}

/// The playing field: nine rows of twenty cells, wrapping at every edge.
pub struct Grid(pub [Row; 9]);

/// The cell of `g` at row `r`, column `c`.
pub open spec fn cell_at(g: Grid, r: int, c: int) -> Cell {
    g.0[r].0[c]
}

/// `g` with the cell at row `r`, column `c` replaced by `cell`.
pub open spec fn spec_set_cell(g: Grid, r: int, c: int, cell: Cell) -> Grid {
    Grid(spec_array_update(g.0, r, Row(spec_array_update(g.0[r].0, c, cell))))
}

/// The starting layout: a five-segment critter heading right along the
/// middle row, and one piece of food ahead of it.
pub open spec fn spec_initial_cell(r: int, c: int) -> Cell {
    if r == 4 && 6 <= c <= 10 {
        Cell::Critter(Direction::Right, false)
    } else if r == 4 && c == 13 {
        Cell::Food
    } else {
        Cell::Empty
    }
}

/// A grid position as (row, column), wrapped to the grid.
pub open spec fn spec_neighbour(location: (int, int), direction: Direction) -> (int, int) {
    match direction {
        Direction::Up => if location.0 == 0 {
            (8, location.1)
        } else {
            (location.0 - 1, location.1)
        },
        Direction::Down => if location.0 == 8 {
            (0, location.1)
        } else {
            (location.0 + 1, location.1)
        },
        Direction::Right => if location.1 == 19 {
            (location.0, 0)
        } else {
            (location.0, location.1 + 1)
        },
        Direction::Left => if location.1 == 0 {
            (location.0, 19)
        } else {
            (location.0, location.1 - 1)
        },
    }
}

impl Grid {
    /// The starting grid.
    pub fn new() -> (g: Grid)
        ensures
            forall|r: int, c: int|
                0 <= r < 9 && 0 <= c < 20 ==> cell_at(g, r, c) == spec_initial_cell(r, c),
    {
        let mut grid = Grid([Row([Cell::Empty;20]);9]);
        grid.0[4].0[10] = Cell::Critter(Direction::Right, false);
        grid.0[4].0[9] = Cell::Critter(Direction::Right, false);
        grid.0[4].0[8] = Cell::Critter(Direction::Right, false);
        grid.0[4].0[7] = Cell::Critter(Direction::Right, false);
        grid.0[4].0[6] = Cell::Critter(Direction::Right, false);
        grid.0[4].0[13] = Cell::Food;
        grid
    }

    /// The position one step from `location` in `direction`, wrapping at
    /// every edge of the grid.
    pub fn neighbour_index(&self, location: (usize, usize), direction: Direction) -> (r: (
        usize,
        usize,
    ))
        requires
            location.0 < 9,
            location.1 < 20,
        ensures
            (r.0 as int, r.1 as int) == spec_neighbour((location.0 as int, location.1 as int), direction),
            r.0 < 9,
            r.1 < 20,
    {
        match direction {
            Direction::Up => {
                if location.0 == 0 {
                    (8, location.1)
                } else {
                    (location.0 - 1, location.1)
                }
            },
            Direction::Down => {
                if location.0 == 8 {
                    (0, location.1)
                } else {
                    (location.0 + 1, location.1)
                }
            },
            Direction::Right => {
                if location.1 == 19 {
                    (location.0, 0)
                } else {
                    (location.0, location.1 + 1)
                }
            },
            Direction::Left => {
                if location.1 == 0 {
                    (location.0, 19)
                } else {
                    (location.0, location.1 - 1)
                }
            },
        }
    }
}

/// The whole game state: the grid, the head position and the tail
/// position.
pub struct World(pub Grid, pub (usize, usize), pub (usize, usize));

/// What the head would run into one step ahead: nothing, food, or the
/// critter itself. A world whose head cell is not a critter segment
/// collides with nothing.
pub open spec fn spec_detect_collision(w: World) -> Collision {
    match cell_at(w.0, w.1.0 as int, w.1.1 as int) {
        Cell::Critter(head_direction, _) => {
            let next = spec_neighbour((w.1.0 as int, w.1.1 as int), head_direction);
            match cell_at(w.0, next.0, next.1) {
                Cell::Critter(_, _) => Collision::Critter,
                Cell::Food => Collision::Food,
                Cell::Empty => Collision::Nothing,
            }
        },
        _ => Collision::Nothing,
    }
}

/// The world after the head advances: the head moves one step the way its
/// cell points, the new head cell records the steering (a turn straight
/// back is refused and the old heading kept) and whether food was eaten.
/// A world whose head cell is not a critter segment is unchanged.
pub open spec fn spec_update_head(w: World, new_direction: Direction, food: bool) -> World {
    match cell_at(w.0, w.1.0 as int, w.1.1 as int) {
        Cell::Critter(head_direction, _) => {
            let next = spec_neighbour((w.1.0 as int, w.1.1 as int), head_direction);
            let steered = if spec_opposite(new_direction) == head_direction {
                head_direction
            } else {
                new_direction
            };
            World(
                spec_set_cell(w.0, next.0, next.1, Cell::Critter(steered, food)),
                (next.0 as usize, next.1 as usize),
                w.2,
            )
        },
        _ => w,
    }
}

/// The world after the tail retreats: the old tail cell empties and the
/// tail position follows its cell's direction. A world whose tail cell is
/// not a critter segment is unchanged.
pub open spec fn spec_update_tail(w: World) -> World {
    match cell_at(w.0, w.2.0 as int, w.2.1 as int) {
        Cell::Critter(tail_direction, _) => {
            let next = spec_neighbour((w.2.0 as int, w.2.1 as int), tail_direction);
            World(
                spec_set_cell(w.0, w.2.0 as int, w.2.1 as int, Cell::Empty),
                w.1,
                (next.0 as usize, next.1 as usize),
            )
        },
        _ => w,
    }
}

/// One tick of the game: running into the critter stops the world, eating
/// food or moving over empty ground advances head then tail.
pub open spec fn spec_update(w: World, direction: Direction) -> World {
    match spec_detect_collision(w) {
        Collision::Critter => w,
        Collision::Food => spec_update_tail(spec_update_head(w, direction, true)),
        Collision::Nothing => spec_update_tail(spec_update_head(w, direction, false)),
    }
}

impl World {
    /// The head and tail positions lie on the grid.
    pub open spec fn wf(self) -> bool {
        &&& self.1.0 < 9
        &&& self.1.1 < 20
        &&& self.2.0 < 9
        &&& self.2.1 < 20
    }

    /// The starting world: the initial grid with the critter's head at the
    /// middle row's column 10 and its tail at column 6.
    pub fn new() -> (w: World)
        ensures
            forall|r: int, c: int|
                0 <= r < 9 && 0 <= c < 20 ==> cell_at(w.0, r, c) == spec_initial_cell(r, c),
            w.1 == ((4usize, 10usize)),
            w.2 == ((4usize, 6usize)),
            w.wf(),
    {
        World(Grid::new(), (4, 10), (4, 6))
    }

    /// What the head would run into one step ahead.
    pub fn detect_collision(&self) -> (r: Collision)
        requires
            self.wf(),
        ensures
            r == spec_detect_collision(*self),
    {
        let head_index = self.1;
        if let Cell::Critter(head_direction, _) = self.0.0[head_index.0].0[head_index.1] {
            let next_index = self.0.neighbour_index(self.1, head_direction);
            match self.0.0[next_index.0].0[next_index.1] {
                Cell::Critter(_, _) => Collision::Critter,
                Cell::Food => Collision::Food,
                Cell::Empty => Collision::Nothing,
            }
        } else {
            Collision::Nothing
        }
    }

    /// One tick of the game, steering toward `direction`.
    pub fn update(&mut self, direction: Direction)
        requires
            old(self).wf(),
        ensures
            *final(self) == spec_update(*old(self), direction),
            final(self).wf(),
    {
        match self.detect_collision() {
            Collision::Critter => {},
            Collision::Food => {
                self.update_head(direction, true);
                self.update_tail();
            },
            Collision::Nothing => {
                self.update_head(direction, false);
                self.update_tail();
            },
        }
    }

    /// Advance the head one step, steering toward `new_direction` unless
    /// that points straight back, and record whether food was eaten.
    pub fn update_head(&mut self, new_direction: Direction, food: bool)
        requires
            old(self).wf(),
        ensures
            *final(self) == spec_update_head(*old(self), new_direction, food),
            final(self).wf(),
    {
        let head_index = self.1;
        if let Cell::Critter(head_direction, _) = self.0.0[head_index.0].0[head_index.1] {
            let new_head_index = self.0.neighbour_index(head_index, head_direction);
            self.1 = new_head_index;
            self.0.0[new_head_index.0].0[new_head_index.1] = Cell::Critter(
                if new_direction.opposite() == head_direction {
                    head_direction
                } else {
                    new_direction
                },
                food,
            );
        }
    }

    /// Retreat the tail one step, emptying the cell it leaves.
    pub fn update_tail(&mut self)
        requires
            old(self).wf(),
        ensures
            *final(self) == spec_update_tail(*old(self)),
            final(self).wf(),
    {
        let tail_index = self.2;
        if let Cell::Critter(tail_direction, _) = self.0.0[tail_index.0].0[tail_index.1] {
            let new_tail_index = self.0.neighbour_index(tail_index, tail_direction);
            self.2 = new_tail_index;
            self.0.0[tail_index.0].0[tail_index.1] = Cell::Empty;
        }
    }
}

/// fastrand's generator, declared so verified code can hold one and pass
/// it along; its state stays opaque.
#[verifier::external_type_specification]
#[verifier::external_body]
pub struct ExRng(fastrand::Rng);

/// Relies on `fastrand::Rng::with_seed`: a deterministic generator derived
/// from the seed.
#[verifier::external_body]
pub fn rng_with_seed(seed: u64) -> fastrand::Rng {
    fastrand::Rng::with_seed(seed)
}

/// Relies on `fastrand::Rng::usize`: a value drawn from the given range.
#[verifier::external_body]
fn rng_below(rng: &mut fastrand::Rng, n: usize) -> (i: usize)
    requires
        n >= 1,
    ensures
        i < n,
{
    rng.usize(0..n)
}

impl Grid {
    /// Put `cell` into one empty cell chosen by the generator; a grid with
    /// no empty cell is left unchanged.
    pub fn place_randomly(&mut self, cell: Cell, rng: &mut fastrand::Rng)
        ensures
            (exists|r: int, c: int|
                0 <= r < 9 && 0 <= c < 20 && cell_at(*old(self), r, c) == Cell::Empty)
                ==> (exists|r: int, c: int|
                0 <= r < 9 && 0 <= c < 20 && cell_at(*old(self), r, c) == Cell::Empty
                    && *final(self) == spec_set_cell(*old(self), r, c, cell)),
            !(exists|r: int, c: int|
                0 <= r < 9 && 0 <= c < 20 && cell_at(*old(self), r, c) == Cell::Empty)
                ==> *final(self) == *old(self),
    {
        let mut empties: Vec<(usize, usize)> = Vec::new();
        let mut r: usize = 0;
        while r < 9
            invariant
                r <= 9,
                forall|k: int|
                    0 <= k < empties@.len() ==> {
                        let p = #[trigger] empties@[k];
                        p.0 < 9 && p.1 < 20 && cell_at(*self, p.0 as int, p.1 as int)
                            == Cell::Empty
                    },
                forall|rr: int, cc: int|
                    0 <= rr < r && 0 <= cc < 20 && cell_at(*self, rr, cc) == Cell::Empty
                        ==> empties@.contains((rr as usize, cc as usize)),
            decreases 9 - r,
        {
            let mut c: usize = 0;
            while c < 20
                invariant
                    r < 9,
                    c <= 20,
                    forall|k: int|
                        0 <= k < empties@.len() ==> {
                            let p = #[trigger] empties@[k];
                            p.0 < 9 && p.1 < 20 && cell_at(*self, p.0 as int, p.1 as int)
                                == Cell::Empty
                        },
                    forall|rr: int, cc: int|
                        0 <= rr < r && 0 <= cc < 20 && cell_at(*self, rr, cc) == Cell::Empty
                            ==> empties@.contains((rr as usize, cc as usize)),
                    forall|cc: int|
                        0 <= cc < c && cell_at(*self, r as int, cc) == Cell::Empty
                            ==> empties@.contains((r, cc as usize)),
                decreases 20 - c,
            {
                if let Cell::Empty = self.0[r].0[c] {
                    let ghost pre = empties@;
                    empties.push((r, c));
                    proof {
                        assert forall|q: (usize, usize)| pre.contains(q) implies empties@.contains(
                            q,
                        ) by {
                            let i = choose|i: int| 0 <= i < pre.len() && pre[i] == q;
                            assert(empties@[i] == q);
                        }
                        assert(empties@[pre.len() as int] == ((r, c)));
                        assert(empties@.contains((r, c)));
                    }
                }
                c = c + 1;
            }
            r = r + 1;
        }
        if empties.len() == 0 {
            return ;
        }
        let i = rng_below(rng, empties.len());
        let (pr, pc) = empties[i];
        self.0[pr].0[pc] = cell;
    }
}

} // verus!
