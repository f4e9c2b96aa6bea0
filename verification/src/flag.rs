//! The flag itself: the executable type and its operations.

use crate::clock::{as_nanos, duration_between, duration_nanos, instant_now};
use crate::model::{FlagState, SetAction, WatchAction};
use std::time::{Duration, Instant};
use vstd::prelude::*;

verus! {

/// The time, in milliseconds, that a watcher sleeps between two polls.
pub const POLL_INTERVAL_MILLIS: u64 = 50;

/// A boolean that, once set, reads true until a fixed time has passed since
/// the latest `set`, and that can be pinned to read true whatever the clock says.
///
/// The flag starts no thread of its own. `set` says when an episode begins, and
/// its caller then runs a watcher: a loop that calls `poll`, sleeps
/// `POLL_INTERVAL_MILLIS` while `poll` answers `Sleep`, and ends when it
/// answers `Stop`.
pub struct ExpiringBool {
    /// The instant the flag was made at: clock reading zero.
    epoch: Instant,
    /// The clock reading of the latest `set`, in nanoseconds since `epoch`.
    last_set: u128,
    value: bool,
    /// The expiration window in nanoseconds.
    duration: u128,
    ignores_timer: bool,
}

impl View for ExpiringBool {
    type V = FlagState;

    closed spec fn view(&self) -> FlagState {
        FlagState {
            value: self.value,
            pinned: self.ignores_timer,
            last_set: self.last_set as nat,
            duration: self.duration as nat,
        }
    }
}

impl ExpiringBool {
    #[verifier::type_invariant]
    spec fn inv(self) -> bool {
        !(self.value && self.ignores_timer)
    }

    /// A flag with the timed value `v` and the expiration window `duration`,
    /// not pinned, made at clock reading zero. No watcher belongs to it, also
    /// where `v` is true: such a flag does not expire before a `set` has begun
    /// an episode.
    pub fn new(v: bool, duration: Duration) -> (flag: Self)
        ensures
            flag@ == FlagState::initial(v, duration_nanos(duration), 0),
            flag@.valid(),
    {
        ExpiringBool {
            epoch: instant_now(),
            last_set: 0,
            value: v,
            duration: as_nanos(&duration),
            ignores_timer: false,
        }
    }

    /// Takes the timed value away. Pin mode is kept, so a pinned flag still
    /// reads true.
    pub fn set_false(&mut self)
        ensures
            final(self)@ == old(self)@.after_clear(),
            final(self)@.valid(),
    {
        self.value = false;
    }

    /// Whether the flag reads true: it is pinned, or its timed value is on.
    pub fn is_true(&self) -> (b: bool)
        ensures
            b == self@.is_true(),
            self@.valid(),
    {
        proof {
            use_type_invariant(self);
        }
        self.ignores_timer || self.value
    }

    /// Cancels or pins. Where the timed value is on, it is taken away, pin mode
    /// stays as it is and the answer is false. Where it is off, pin mode is
    /// flipped and the answer is the new pin mode.
    pub fn toggle(&mut self) -> (pinned: bool)
        ensures
            final(self)@ == old(self)@.after_toggle(),
            pinned == old(self)@.toggle_result(),
            final(self)@.valid(),
    {
        proof {
            use_type_invariant(&*self);
        }
        if self.value {
            self.value = false;
            false
        } else {
            self.ignores_timer = !self.ignores_timer;
            self.ignores_timer
        }
    }

    /// The clock reading now: the nanoseconds since the flag was made.
    fn clock(&self) -> (now: u128) {
        let now = instant_now();
        let passed = duration_between(&now, &self.epoch);
        as_nanos(&passed)
    }

    /// Records activity at clock reading `now`. A pinned flag is left as it is.
    /// Any other flag reads true afterwards and has `now` as its latest `set`;
    /// the caller has to start a watcher exactly where the timed value was off
    /// or the previous `set` was stale at `now`.
    pub fn set_at(&mut self, now: u128) -> (action: SetAction)
        ensures
            final(self)@ == old(self)@.after_set(now as nat),
            action == old(self)@.set_action(now as nat),
            final(self)@.valid(),
    {
        proof {
            use_type_invariant(&*self);
        }
        if self.ignores_timer {
            return SetAction::Nothing;
        }
        let elapsed: u128 = if now >= self.last_set {
            now - self.last_set
        } else {
            0
        };
        let begins = elapsed > self.duration || !self.value;
        self.value = true;
        self.last_set = now;
        if begins {
            SetAction::StartWatcher
        } else {
            SetAction::Nothing
        }
    }

    /// One poll of a watcher at clock reading `now`. Where more than the window
    /// has passed since the latest `set`, the timed value is taken away and the
    /// watcher has to end; else nothing changes and the watcher has to sleep
    /// and poll again. Pin mode plays no part in it.
    pub fn poll_at(&mut self, now: u128) -> (action: WatchAction)
        ensures
            final(self)@ == old(self)@.after_poll(now as nat),
            action == old(self)@.poll_action(now as nat),
            final(self)@.valid(),
    {
        proof {
            use_type_invariant(&*self);
        }
        let elapsed: u128 = if now >= self.last_set {
            now - self.last_set
        } else {
            0
        };
        if elapsed > self.duration {
            self.value = false;
            WatchAction::Stop
        } else {
            WatchAction::Sleep
        }
    }

    /// One poll of a watcher at the present reading of the flag's clock:
    /// `poll_at` with that reading.
    pub fn poll(&mut self) -> (action: WatchAction)
        ensures
            exists|now: nat| #[trigger]
                old(self)@.after_poll(now) == final(self)@ && action == old(self)@.poll_action(now),
            final(self)@.valid(),
    {
        let now = self.clock();
        self.poll_at(now)
    }

    /// Records activity at the present reading of the flag's clock: `set_at`
    /// with that reading.
    pub fn set(&mut self) -> (action: SetAction)
        ensures
            exists|now: nat| #[trigger]
                old(self)@.after_set(now) == final(self)@ && action == old(self)@.set_action(now),
            final(self)@.valid(),
    {
        let now = self.clock();
        self.set_at(now)
    }
}

} // verus!
