//! The multi-tap decision engine: a timing-driven state machine that turns
//! repeated presses of the same key into one character, as on a classic
//! phone keypad.
//!
//! The engine itself performs no waiting. Its caller races the next raw key
//! event against a timeout and hands the engine whichever source resumed, as
//! a [`Race`] value; the engine answers with at most one character event and
//! updates its own state. A caller drains [`MultiTap::take_pending`] before
//! racing again, because a key switch produces two events: the decision now
//! and a queued tentative for the next call.

use vstd::prelude::*;

verus! {

/// A key type whose values each carry a fixed, finite, ordered cycle of
/// candidate characters.
pub trait CandidateKey: Copy + Sized {
    /// The character a single tap of this key produces.
    spec fn spec_first_candidate(self) -> char;

    /// The candidate after `c` in this key's cycle, wrapping at the end.
    spec fn spec_next_candidate(self, c: char) -> char;

    fn first_candidate(self) -> (c: char)
        ensures
            c == self.spec_first_candidate(),
    ;

    fn next_candidate(self, c: char) -> (r: char)
        ensures
            r == self.spec_next_candidate(c),
    ;

    fn same_button(self, other: Self) -> (r: bool)
        ensures
            r == (self == other),
    ;
}

/// A character event produced by the engine: `Tentative` is still revisable
/// by further taps of the same key; `Decided` is final.
#[derive(Debug, Clone, Copy, PartialEq, Eq)]
pub enum Event {
    Tentative(char),
    Decided(char),
}

/// The outcome of racing the next raw key event against the caller's
/// timeout: exactly one of the two sources resumed.
#[derive(Debug, Clone, Copy, PartialEq, Eq)]
pub enum Race<B> {
    Timeout,
    Key(crate::keypad::Event<B>),
}

/// The multi-tap engine's state.
///
/// `last_press` is the key currently mid-cycle, `last_emitted` the most
/// recent event produced (used to compute the next cycle step and to know
/// what a timeout finalizes), and `pending` holds at most one queued event:
/// the fresh tentative created when a key switch finalizes the previous
/// character.
pub struct MultiTap<B> {
    pub last_press: Option<B>,
    pub last_emitted: Option<Event>,
    pub pending: Option<Event>,
}

impl<B: CandidateKey> MultiTap<B> {
    /// The states the engine actually reaches: a key is mid-cycle exactly
    /// when the last emitted event is a tentative character, a decided event
    /// is never stored, and a queued event always mirrors `last_emitted`.
    pub open spec fn wf(self) -> bool {
        &&& (self.last_press is Some <==> self.last_emitted matches Some(Event::Tentative(_)))
        &&& !(self.last_emitted matches Some(Event::Decided(_)))
        &&& (self.pending is Some ==> self.pending == self.last_emitted)
    }

    /// The engine's whole transition relation: from state `pre` (with an
    /// empty pending slot) and race outcome `input` to the new state and the
    /// event returned, if any. `None` means "nothing to report, keep
    /// waiting".
    pub open spec fn stepped(pre: Self, input: Race<B>) -> (Self, Option<Event>) {
        match input {
            Race::Timeout => match pre.last_emitted {
                Some(Event::Tentative(c)) => (
                    MultiTap { last_press: None, last_emitted: None, ..pre },
                    Some(Event::Decided(c)),
                ),
                _ => (pre, None),
            },
            Race::Key(crate::keypad::Event::Down(b)) => {
                if pre.last_press matches Some(p) && p != b {
                    match pre.last_emitted {
                        Some(Event::Tentative(f)) => (
                            MultiTap {
                                last_press: Some(b),
                                last_emitted: Some(Event::Tentative(b.spec_first_candidate())),
                                pending: Some(Event::Tentative(b.spec_first_candidate())),
                            },
                            Some(Event::Decided(f)),
                        ),
                        _ => (pre, None),
                    }
                } else {
                    let c = match pre.last_emitted {
                        Some(Event::Tentative(t)) => b.spec_next_candidate(t),
                        _ => b.spec_first_candidate(),
                    };
                    (
                        MultiTap {
                            last_press: Some(b),
                            last_emitted: Some(Event::Tentative(c)),
                            ..pre
                        },
                        Some(Event::Tentative(c)),
                    )
                }
            },
            Race::Key(crate::keypad::Event::Up(_)) => (pre, None),
        }
    }

    /// A fresh, idle engine.
    pub fn new() -> (t: Self)
        ensures
            t.last_press is None,
            t.last_emitted is None,
            t.pending is None,
            t.wf(),
    {
        MultiTap { last_press: None, last_emitted: None, pending: None }
    }

    /// Serving the queue: the state with the queue emptied, and whatever
    /// event was queued.
    pub open spec fn drained(pre: Self) -> (Self, Option<Event>) {
        (MultiTap { pending: None, ..pre }, pre.pending)
    }

    /// Drain the queued event, if one exists. Callers call this before
    /// racing the key source against a timeout: while an event is queued the
    /// engine answers from the queue immediately and consumes no input —
    /// `event` itself demands an already-drained queue.
    pub fn take_pending(&mut self) -> (out: Option<Event>)
        ensures
            (*final(self), out) == Self::drained(*old(self)),
            out == old(self).pending,
            final(self).pending is None,
            final(self).last_press == old(self).last_press,
            final(self).last_emitted == old(self).last_emitted,
            old(self).wf() && old(self).pending is Some ==> final(self).last_emitted == old(
                self,
            ).pending,
            old(self).wf() ==> final(self).wf(),
    {
        let out = self.pending;
        self.pending = None;
        out
    }

    /// Process one race outcome.
    ///
    /// A key-down for the key already mid-cycle (or for the first key after
    /// idle) advances the candidate cycle and answers with the new tentative
    /// character. A key-down for a different key finalizes the old character,
    /// answers with that decision, and queues the new key's first candidate.
    /// A timeout while a character is tentative finalizes it; a timeout with
    /// nothing tentative, and any key-up, are no-ops.
    pub fn event(&mut self, input: Race<B>) -> (out: Option<Event>)
        requires
            old(self).pending is None,
        ensures
            *final(self) == Self::stepped(*old(self), input).0,
            out == Self::stepped(*old(self), input).1,
    {
        match input {
            Race::Timeout => {
                if let Some(Event::Tentative(c)) = self.last_emitted {
                    self.last_emitted = None;
                    self.last_press = None;
                    Some(Event::Decided(c))
                } else {
                    None
                }
            },
            Race::Key(crate::keypad::Event::Down(b)) => {
                let switching = match self.last_press {
                    Some(p) => !p.same_button(b),
                    None => false,
                };
                if switching {
                    if let Some(Event::Tentative(f)) = self.last_emitted {
                        let t = b.first_candidate();
                        self.last_emitted = Some(Event::Tentative(t));
                        self.last_press = Some(b);
                        self.pending = Some(Event::Tentative(t));
                        Some(Event::Decided(f))
                    } else {
                        None
                    }
                } else {
                    let c = match self.last_emitted {
                        Some(Event::Tentative(t)) => b.next_candidate(t),
                        _ => b.first_candidate(),
                    };
                    self.last_press = Some(b);
                    self.last_emitted = Some(Event::Tentative(c));
                    Some(Event::Tentative(c))
                }
            },
            Race::Key(crate::keypad::Event::Up(_)) => None,
        }
    }
}

/// Every reachable state stays well formed across a step.
pub proof fn lemma_step_preserves_wf<B: CandidateKey>(pre: MultiTap<B>, input: Race<B>)
    requires
        pre.wf(),
        pre.pending is None,
    ensures
        MultiTap::stepped(pre, input).0.wf(),
{
}

/// The idle engine state.
pub open spec fn idle<B: CandidateKey>() -> MultiTap<B> {
    MultiTap { last_press: None, last_emitted: None, pending: None }
}

/// Single-tap tentative: from idle, one key-down of `b` answers with `b`'s
/// first candidate as a tentative character, and leaves `b` mid-cycle.
pub proof fn lemma_single_tap_tentative<B: CandidateKey>(b: B)
    ensures
        ({
            let (post, out) = MultiTap::stepped(idle::<B>(), Race::Key(crate::keypad::Event::Down(b)));
            &&& out == Some(Event::Tentative(b.spec_first_candidate()))
            &&& post.last_press == Some(b)
            &&& post.last_emitted == Some(Event::Tentative(b.spec_first_candidate()))
            &&& post.pending is None
        }),
{
}

/// Double-tap on the same key cycles: the first press answers with the
/// first candidate, a second press of the same key answers with that
/// candidate's successor in the key's cycle.
pub proof fn lemma_double_tap_cycles<B: CandidateKey>(b: B)
    ensures
        ({
            let (mid, out1) = MultiTap::stepped(idle::<B>(), Race::Key(crate::keypad::Event::Down(b)));
            let (post, out2) = MultiTap::stepped(mid, Race::Key(crate::keypad::Event::Down(b)));
            &&& out1 == Some(Event::Tentative(b.spec_first_candidate()))
            &&& out2 == Some(Event::Tentative(b.spec_next_candidate(b.spec_first_candidate())))
            &&& post.last_emitted == out2
        }),
{
}

/// A timeout finalizes: while `b`'s first candidate is tentative, a timeout
/// answers with the same character decided and returns the engine to idle.
pub proof fn lemma_timeout_finalizes<B: CandidateKey>(b: B)
    ensures
        ({
            let (mid, _) = MultiTap::stepped(idle::<B>(), Race::Key(crate::keypad::Event::Down(b)));
            let (post, out) = MultiTap::stepped(mid, Race::Timeout);
            &&& out == Some(Event::Decided(b.spec_first_candidate()))
            &&& post == idle::<B>()
        }),
{
}

/// A queued event is served before any new input: in a reachable state with
/// `ev` queued, draining the queue answers exactly `ev`, empties the queue,
/// keeps `ev` as the last emitted event and the mid-cycle key in place —
/// and consumes no race outcome, since `event` demands an already-drained
/// queue.
pub proof fn lemma_pending_served_first<B: CandidateKey>(pre: MultiTap<B>, ev: Event)
    requires
        pre.wf(),
        pre.pending == Some(ev),
    ensures
        ({
            let (post, out) = MultiTap::drained(pre);
            &&& out == Some(ev)
            &&& post.pending is None
            &&& post.last_emitted == Some(ev)
            &&& post.last_press == pre.last_press
            &&& post.wf()
        }),
{
}

/// Switching keys finalizes then queues: with `b1` mid-cycle, a key-down of
/// a different key `b2` answers with `b1`'s candidate decided and queues
/// `b2`'s first candidate, which the next `take_pending` hands out without
/// consuming input.
pub proof fn lemma_switch_finalizes_then_queues<B: CandidateKey>(b1: B, b2: B)
    requires
        b1 != b2,
    ensures
        ({
            let (mid, _) = MultiTap::stepped(idle::<B>(), Race::Key(crate::keypad::Event::Down(b1)));
            let (post, out) = MultiTap::stepped(mid, Race::Key(crate::keypad::Event::Down(b2)));
            &&& out == Some(Event::Decided(b1.spec_first_candidate()))
            &&& post.pending == Some(Event::Tentative(b2.spec_first_candidate()))
            &&& post.last_press == Some(b2)
        }),
{
}

/// No double decide: once a timeout has finalized a character the engine is
/// idle, and a second timeout neither produces an event nor moves the state.
pub proof fn lemma_no_double_decide<B: CandidateKey>(b: B)
    ensures
        ({
            let (mid, _) = MultiTap::stepped(idle::<B>(), Race::Key(crate::keypad::Event::Down(b)));
            let (decided, _) = MultiTap::stepped(mid, Race::Timeout);
            let (post, out) = MultiTap::stepped(decided, Race::Timeout);
            &&& decided.last_press is None
            &&& decided.last_emitted is None
            &&& out is None
            &&& post == decided
        }),
{
}

} // verus!

