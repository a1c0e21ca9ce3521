//! The text-entry buffer: an ordered, fixed-capacity sequence of character
//! slots plus a cursor. Tentative characters overwrite the slot under the
//! cursor in place; decided characters commit the slot and advance the
//! cursor. Rendering the slots is the surrounding application's concern.

use vstd::prelude::*;

use crate::multi_tap::Event;

verus! {

/// Writing past the buffer's fixed capacity.
///
/// The buffer has no eviction or deletion policy; once every slot is
/// committed, further events are refused with this error rather than
/// silently dropped or written out of bounds.
#[derive(Debug, Clone, Copy, PartialEq, Eq)]
pub struct CapacityError;

/// The text entered so far: `buffer` holds one optional character event per
/// slot, and `index` is the cursor — the slot currently being composed.
pub struct Model {
    pub buffer: Vec<Option<Event>>,
    pub index: usize,
}

impl Model {
    /// The cursor never leaves the buffer except by one step past the last
    /// slot (the buffer-full state), and every slot behind the cursor is
    /// committed.
    pub open spec fn wf(self) -> bool {
        &&& self.index <= self.buffer@.len()
        &&& forall|i: int|
            0 <= i < self.index ==> (#[trigger] self.buffer@[i]) matches Some(Event::Decided(_))
    }

    /// A fresh model over caller-chosen storage, with the cursor at the
    /// first slot.
    pub fn new(buffer: Vec<Option<Event>>) -> (m: Model)
        ensures
            m.buffer == buffer,
            m.index == 0,
    {
        Model { buffer, index: 0 }
    }

    /// An empty model with `capacity` empty slots.
    pub fn with_capacity(capacity: usize) -> (m: Model)
        ensures
            m.index == 0,
            m.buffer@.len() == capacity,
            forall|i: int| 0 <= i < capacity ==> (#[trigger] m.buffer@[i]) is None,
            m.wf(),
    {
        let mut buffer: Vec<Option<Event>> = Vec::new();
        let mut k: usize = 0;
        while k < capacity
            invariant
                k <= capacity,
                buffer@.len() == k,
                forall|i: int| 0 <= i < k ==> (#[trigger] buffer@[i]) is None,
            decreases capacity - k,
        {
            buffer.push(None);
            k = k + 1;
        }
        Model { buffer, index: 0 }
    }

    /// Apply one character event at the cursor.
    ///
    /// A tentative character overwrites the cursor's slot and leaves the
    /// cursor in place. A decided character writes the decision's own
    /// character into the cursor's slot — promoting a tentative already
    /// there (overwrite, not append), or filling an empty slot — and
    /// advances the cursor by one. With the cursor past the last slot the
    /// buffer is full and the event is refused.
    pub fn update(&mut self, event: Event) -> (r: Result<(), CapacityError>)
        ensures
            r is Err <==> old(self).index >= old(self).buffer@.len(),
            r is Err ==> *final(self) == *old(self),
            r is Ok ==> final(self).buffer@.len() == old(self).buffer@.len(),
            r is Ok ==> forall|i: int|
                0 <= i < old(self).buffer@.len() && i != old(self).index
                    ==> final(self).buffer@[i] == #[trigger] old(self).buffer@[i],
            r is Ok ==> final(self).buffer@[old(self).index as int] == Some(event),
            r is Ok ==> final(self).index == if event is Decided {
                old(self).index + 1
            } else {
                old(self).index as int
            },
    {
        if self.index >= self.buffer.len() {
            return Err(CapacityError);
        }
        match event {
            Event::Decided(_) => {
                self.buffer[self.index] = Some(event);
                self.index = self.index + 1;
            },
            Event::Tentative(_) => {
                self.buffer[self.index] = Some(event);
            },
        }
        Ok(())
    }

    /// The number of slots.
    pub fn capacity(&self) -> (n: usize)
        ensures
            n == self.buffer@.len(),
    {
        self.buffer.len()
    }

    /// The slot at `i`: the character there, and whether it is decided.
    pub fn slot(&self, i: usize) -> (r: Option<(char, bool)>)
        requires
            i < self.buffer@.len(),
        ensures
            r == (match self.buffer@[i as int] {
                Some(Event::Decided(c)) => Some((c, true)),
                Some(Event::Tentative(c)) => Some((c, false)),
                None => None::<(char, bool)>,
            }),
    {
        match self.buffer[i] {
            Some(Event::Decided(c)) => Some((c, true)),
            Some(Event::Tentative(c)) => Some((c, false)),
            None => None,
        }
    }

    /// `update` keeps the model well formed.
    pub proof fn lemma_update_preserves_wf(
        pre: Model,
        post: Model,
        event: Event,
        r: Result<(), CapacityError>,
    )
        requires
            pre.wf(),
            r is Err ==> post == pre,
            r is Ok ==> post.buffer@.len() == pre.buffer@.len(),
            r is Ok ==> pre.index < pre.buffer@.len(),
            r is Ok ==> forall|i: int|
                0 <= i < pre.buffer@.len() && i != pre.index
                    ==> post.buffer@[i] == #[trigger] pre.buffer@[i],
            r is Ok ==> post.buffer@[pre.index as int] == Some(event),
            r is Ok ==> post.index == if event is Decided {
                pre.index + 1
            } else {
                pre.index as int
            },
        ensures
            post.wf(),
    {
        if r is Ok {
            assert forall|i: int| 0 <= i < post.index implies (#[trigger] post.buffer@[i]) matches Some(
                Event::Decided(_),
            ) by {
                if i != pre.index {
                    assert(post.buffer@[i] == pre.buffer@[i]);
                }
            }
        }
    }
}

} // verus!
