//! The flag as a mathematical value, and what each operation makes of it.

use vstd::prelude::*;

verus! {

/// What the caller of `set` has to do once the call has returned.
#[derive(Clone, Copy, Debug, PartialEq, Eq, Structural)]
pub enum SetAction {
    /// Nothing: the flag is pinned, or the watcher of the running episode
    /// will see the new deadline by itself.
    Nothing,
    /// A new episode has begun: start one watcher for it.
    StartWatcher,
}

/// What a watcher has to do after one poll.
#[derive(Clone, Copy, Debug, PartialEq, Eq, Structural)]
pub enum WatchAction {
    /// The latest `set` is still within the window: sleep one polling interval
    /// and poll again.
    Sleep,
    /// The episode is over and the value has been cleared: end.
    Stop,
}

/// The state of a flag. Clock readings and the expiration window are counted
/// in nanoseconds.
pub struct FlagState {
    /// The timed value: true from a `set` until it expires or is cleared.
    pub value: bool,
    /// Pin mode: while it is on, the flag reads true whatever `value` holds.
    pub pinned: bool,
    /// The clock reading of the latest `set`, or of the construction.
    pub last_set: nat,
    /// The expiration window.
    pub duration: nat,
}

impl FlagState {
    /// The state of a new flag made at clock reading `now`.
    pub open spec fn initial(v: bool, duration: nat, now: nat) -> FlagState {
        FlagState { value: v, pinned: false, last_set: now, duration }
    }

    /// The timed value and pin mode are never on together.
    pub open spec fn valid(self) -> bool {
        !(self.value && self.pinned)
    }

    /// Neither set nor pinned: the flag reads false.
    pub open spec fn is_unset(self) -> bool {
        !self.value && !self.pinned
    }

    /// Set and not pinned: the flag reads true until it expires.
    pub open spec fn is_timed_true(self) -> bool {
        self.value && !self.pinned
    }

    /// Pinned: the flag reads true whatever the clock says.
    pub open spec fn is_pinned(self) -> bool {
        !self.value && self.pinned
    }

    /// What a reader of the flag sees.
    pub open spec fn is_true(self) -> bool {
        self.pinned || self.value
    }

    /// The time from the latest `set` to `now`; zero where `now` lies before it.
    pub open spec fn elapsed(self, now: nat) -> nat {
        if now >= self.last_set {
            (now - self.last_set) as nat
        } else {
            0
        }
    }

    /// The last clock reading at which the latest `set` still holds.
    pub open spec fn deadline(self) -> nat {
        self.last_set + self.duration
    }

    /// Whether more than the window has passed between the latest `set` and `now`.
    pub open spec fn stale(self, now: nat) -> bool {
        self.elapsed(now) > self.duration
    }

    /// The state after `set_false`: the timed value is off, the rest is kept.
    pub open spec fn after_clear(self) -> FlagState {
        FlagState { value: false, ..self }
    }

    /// The state after `toggle`: a flag whose timed value is on loses it and
    /// keeps its pin mode; any other flag has its pin mode flipped.
    pub open spec fn after_toggle(self) -> FlagState {
        if self.value {
            FlagState { value: false, ..self }
        } else {
            FlagState { pinned: !self.pinned, ..self }
        }
    }

    /// What `toggle` returns: false where it took the timed value away, else
    /// the pin mode it has just switched to.
    pub open spec fn toggle_result(self) -> bool {
        !self.value && !self.pinned
    }

    /// The state after a `set` at clock reading `now`: a pinned flag is left
    /// alone; any other flag has its timed value on and `now` as its latest `set`.
    pub open spec fn after_set(self, now: nat) -> FlagState {
        if self.pinned {
            self
        } else {
            FlagState { value: true, last_set: now, ..self }
        }
    }

    /// Whether a `set` at clock reading `now` begins a new episode: the flag is
    /// not pinned, and its timed value is off or its latest `set` is stale.
    pub open spec fn begins_episode(self, now: nat) -> bool {
        !self.pinned && (self.stale(now) || !self.value)
    }

    /// What a `set` at clock reading `now` asks of its caller.
    pub open spec fn set_action(self, now: nat) -> SetAction {
        if self.begins_episode(now) {
            SetAction::StartWatcher
        } else {
            SetAction::Nothing
        }
    }

    /// The state after a watcher's poll at clock reading `now`: where the
    /// latest `set` is stale the timed value is off, else nothing changes.
    pub open spec fn after_poll(self, now: nat) -> FlagState {
        if self.stale(now) {
            FlagState { value: false, ..self }
        } else {
            self
        }
    }

    /// What a poll at clock reading `now` asks of the watcher.
    pub open spec fn poll_action(self, now: nat) -> WatchAction {
        if self.stale(now) {
            WatchAction::Stop
        } else {
            WatchAction::Sleep
        }
    }
}

} // verus!
