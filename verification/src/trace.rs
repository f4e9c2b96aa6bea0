//! Histories: what a flag has become after a sequence of operations.

use crate::model::{FlagState, SetAction};
use vstd::prelude::*;

verus! {

/// One operation on a flag, with the clock reading it happens at where the
/// clock plays a part.
pub enum Event {
    /// A `set` at the given clock reading.
    SetAt(nat),
    /// A `set_false`.
    Clear,
    /// A `toggle`.
    Toggle,
    /// A watcher's poll at the given clock reading.
    PollAt(nat),
}

impl FlagState {
    /// The state after one operation.
    pub open spec fn step(self, e: Event) -> FlagState {
        match e {
            Event::SetAt(now) => self.after_set(now),
            Event::Clear => self.after_clear(),
            Event::Toggle => self.after_toggle(),
            Event::PollAt(now) => self.after_poll(now),
        }
    }

    /// The state after the operations of `events`, in their order.
    pub open spec fn run(self, events: Seq<Event>) -> FlagState
        decreases events.len(),
    {
        if events.len() == 0 {
            self
        } else {
            self.run(events.drop_last()).step(events.last())
        }
    }

    /// Whether `events` holds nothing but `set`s and polls, each of them at a
    /// clock reading at which the `set` before it is not stale.
    pub open spec fn keeps_fresh(self, events: Seq<Event>) -> bool
        decreases events.len(),
    {
        events.len() == 0 || {
            let before = events.drop_last();
            &&& self.keeps_fresh(before)
            &&& match events.last() {
                Event::SetAt(now) => !self.run(before).stale(now),
                Event::PollAt(now) => !self.run(before).stale(now),
                _ => false,
            }
        }
    }

    /// Whether the operation `e` on this state asks for a new watcher.
    pub open spec fn starts_watcher(self, e: Event) -> bool {
        match e {
            Event::SetAt(now) => self.set_action(now) == SetAction::StartWatcher,
            _ => false,
        }
    }

    /// How many watchers the operations of `events` ask for, one after the other.
    pub open spec fn watchers_started(self, events: Seq<Event>) -> nat
        decreases events.len(),
    {
        if events.len() == 0 {
            0
        } else {
            let before = events.drop_last();
            let earlier = self.watchers_started(before);
            if self.run(before).starts_watcher(events.last()) {
                earlier + 1
            } else {
                earlier
            }
        }
    }
}

/// The clock reading of the last `set` among `events`, and `otherwise` where
/// there is none.
pub open spec fn latest_set(events: Seq<Event>, otherwise: nat) -> nat
    decreases events.len(),
{
    if events.len() == 0 {
        otherwise
    } else {
        match events.last() {
            Event::SetAt(now) => now,
            _ => latest_set(events.drop_last(), otherwise),
        }
    }
}

/// `n` calls of `toggle`, one after the other.
pub open spec fn toggles(n: nat) -> Seq<Event> {
    Seq::new(n, |i: int| Event::Toggle)
}

/// The clock reading of poll number `i`, counted from zero, of a watcher that
/// begins at clock reading `start` and polls every `interval`.
pub open spec fn poll_time(start: nat, interval: nat, i: nat) -> nat {
    start + i * interval
}

/// The first `n` polls of a watcher that begins at clock reading `start` and
/// polls every `interval`.
pub open spec fn polls(start: nat, interval: nat, n: nat) -> Seq<Event> {
    Seq::new(n, |i: int| Event::PollAt(poll_time(start, interval, i as nat)))
}

/// Whether `events` holds no `set` and no `toggle`.
pub open spec fn only_clears_and_polls(events: Seq<Event>) -> bool {
    forall|i: int| 0 <= i < events.len() ==> events[i] is Clear || events[i] is PollAt
}

/// Whether `events` holds no `toggle`.
pub open spec fn no_toggle(events: Seq<Event>) -> bool {
    forall|i: int| 0 <= i < events.len() ==> !(events[i] is Toggle)
}

} // verus!
