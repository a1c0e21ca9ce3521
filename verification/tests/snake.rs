use handheld::snake::{rng_with_seed, Cell, Collision, Direction, Grid, Row, World};

#[test]
fn opposite_pairs() {
    assert_eq!(Direction::Up.opposite(), Direction::Down);
    assert_eq!(Direction::Down.opposite(), Direction::Up);
    assert_eq!(Direction::Left.opposite(), Direction::Right);
    assert_eq!(Direction::Right.opposite(), Direction::Left);
}

#[test]
fn test_neighbour_index() {
    let world = World::new();

    // indices are row, column
    // middle-ish
    assert_eq!(world.0.neighbour_index((4, 10), Direction::Up), (3, 10));
    assert_eq!(world.0.neighbour_index((4, 10), Direction::Left), (4, 9));
    assert_eq!(world.0.neighbour_index((4, 10), Direction::Down), (5, 10));
    assert_eq!(world.0.neighbour_index((4, 10), Direction::Right), (4, 11));

    // left edge
    assert_eq!(world.0.neighbour_index((4, 0), Direction::Up), (3, 0));
    assert_eq!(world.0.neighbour_index((4, 0), Direction::Left), (4, 19));
    assert_eq!(world.0.neighbour_index((4, 0), Direction::Down), (5, 0));
    assert_eq!(world.0.neighbour_index((4, 0), Direction::Right), (4, 1));

    // right edge
    assert_eq!(world.0.neighbour_index((4, 19), Direction::Up), (3, 19));
    assert_eq!(world.0.neighbour_index((4, 19), Direction::Left), (4, 18));
    assert_eq!(world.0.neighbour_index((4, 19), Direction::Down), (5, 19));
    assert_eq!(world.0.neighbour_index((4, 19), Direction::Right), (4, 0));

    // top edge
    assert_eq!(world.0.neighbour_index((0, 10), Direction::Up), (8, 10));
    assert_eq!(world.0.neighbour_index((0, 10), Direction::Left), (0, 9));
    assert_eq!(world.0.neighbour_index((0, 10), Direction::Down), (1, 10));
    assert_eq!(world.0.neighbour_index((0, 10), Direction::Right), (0, 11));

    // bottom edge
    assert_eq!(world.0.neighbour_index((8, 10), Direction::Up), (7, 10));
    assert_eq!(world.0.neighbour_index((8, 10), Direction::Left), (8, 9));
    assert_eq!(world.0.neighbour_index((8, 10), Direction::Down), (0, 10));
    assert_eq!(world.0.neighbour_index((8, 10), Direction::Right), (8, 11));
}

#[test]
fn the_world_starts_as_laid_out() {
    let world = World::new();
    assert_eq!(world.1, (4, 10));
    assert_eq!(world.2, (4, 6));
    for c in 6..=10 {
        assert_eq!(world.0 .0[4].0[c], Cell::Critter(Direction::Right, false));
    }
    assert_eq!(world.0 .0[4].0[13], Cell::Food);
    assert_eq!(world.0 .0[4].0[11], Cell::Empty);
    assert_eq!(world.0 .0[0].0[0], Cell::Empty);
}

#[test]
fn crawling_toward_food() {
    let mut world = World::new();
    assert_eq!(world.detect_collision(), Collision::Nothing);

    world.update(Direction::Right);
    assert_eq!(world.1, (4, 11));
    assert_eq!(world.2, (4, 7));
    assert_eq!(world.0 .0[4].0[6], Cell::Empty);

    world.update(Direction::Right);
    assert_eq!(world.detect_collision(), Collision::Food);

    world.update(Direction::Right);
    assert_eq!(world.1, (4, 13));
    assert_eq!(world.0 .0[4].0[13], Cell::Critter(Direction::Right, true));
}

#[test]
fn a_turn_straight_back_is_refused() {
    let mut world = World::new();
    world.update(Direction::Left);
    // The critter keeps heading right.
    assert_eq!(world.1, (4, 11));
    assert_eq!(world.0 .0[4].0[11], Cell::Critter(Direction::Right, false));
    let mut turning = World::new();
    turning.update(Direction::Up);
    assert_eq!(turning.0 .0[4].0[11], Cell::Critter(Direction::Up, false));
}

#[test]
fn place_randomly_fills_one_empty_cell() {
    let mut grid = Grid::new();
    let mut rng = rng_with_seed(7);
    let count_food = |g: &Grid| -> usize {
        let mut n: usize = 0;
        for r in 0..9 {
            for c in 0..20 {
                if g.0[r].0[c] == Cell::Food {
                    n += 1;
                }
            }
        }
        n
    };
    assert_eq!(count_food(&grid), 1);
    grid.place_randomly(Cell::Food, &mut rng);
    assert_eq!(count_food(&grid), 2);
    grid.place_randomly(Cell::Food, &mut rng);
    assert_eq!(count_food(&grid), 3);
}

#[test]
fn place_randomly_leaves_a_full_grid_alone() {
    let mut grid = Grid([Row([Cell::Food; 20]); 9]);
    let mut rng = rng_with_seed(0);
    grid.place_randomly(Cell::Critter(Direction::Up, false), &mut rng);
    for r in 0..9 {
        for c in 0..20 {
            assert_eq!(grid.0[r].0[c], Cell::Food);
        }
    }
}
