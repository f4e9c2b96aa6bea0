//! What holds of every flag, proved from the model.

use crate::model::{FlagState, SetAction, WatchAction};
use crate::trace::{
    latest_set, no_toggle, only_clears_and_polls, poll_time, polls, toggles, Event,
};
use vstd::prelude::*;

verus! {

/// A new flag is valid, and reads as its first value says.
pub proof fn lemma_initial(v: bool, duration: nat, now: nat)
    ensures
        FlagState::initial(v, duration, now).valid(),
        FlagState::initial(v, duration, now).is_true() == v,
{
}

/// A valid flag is in exactly one of three phases: unset, timed true or
/// pinned. It reads false in the first and true in the other two.
pub proof fn lemma_three_phases(s: FlagState)
    requires
        s.valid(),
    ensures
        s.is_unset() || s.is_timed_true() || s.is_pinned(),
        !(s.is_unset() && s.is_timed_true()),
        !(s.is_unset() && s.is_pinned()),
        !(s.is_timed_true() && s.is_pinned()),
        s.is_true() == !s.is_unset(),
{
}

/// No operation leads out of the valid states, and none changes the window.
pub proof fn lemma_step_keeps_valid(s: FlagState, e: Event)
    requires
        s.valid(),
    ensures
        s.step(e).valid(),
        s.step(e).duration == s.duration,
{
}

/// No sequence of operations leads out of the valid states, and none changes
/// the window.
pub proof fn lemma_run_keeps_valid(s: FlagState, events: Seq<Event>)
    requires
        s.valid(),
    ensures
        s.run(events).valid(),
        s.run(events).duration == s.duration,
    decreases events.len(),
{
    if events.len() > 0 {
        lemma_run_keeps_valid(s, events.drop_last());
        lemma_step_keeps_valid(s.run(events.drop_last()), events.last());
    }
}

/// A `set` is stale exactly at the clock readings past its deadline.
pub proof fn lemma_stale_past_deadline(s: FlagState, now: nat)
    ensures
        s.stale(now) <==> now > s.deadline(),
{
}

/// Running `e` and then `events` is running `events` on the state after `e`,
/// and asks for as many watchers.
pub proof fn lemma_run_from_first(s: FlagState, e: Event, events: Seq<Event>)
    ensures
        s.run(seq![e] + events) == s.step(e).run(events),
        s.watchers_started(seq![e] + events) == s.step(e).watchers_started(events) + (if s.starts_watcher(e) {
            1nat
        } else {
            0nat
        }),
    decreases events.len(),
{
    let all = seq![e] + events;
    if events.len() == 0 {
        assert(all.drop_last() =~= Seq::<Event>::empty());
        assert(s.run(all.drop_last()) == s);
        assert(s.watchers_started(all.drop_last()) == 0);
    } else {
        assert(all.drop_last() =~= seq![e] + events.drop_last());
        lemma_run_from_first(s, e, events.drop_last());
    }
}

/// A flag that reads false keeps its state, and so reads false, until a
/// `set` or a `toggle`: clearing it and polling it change nothing.
pub proof fn lemma_unset_until_set(s: FlagState, events: Seq<Event>)
    requires
        s.is_unset(),
        only_clears_and_polls(events),
    ensures
        s.run(events) == s,
        !s.run(events).is_true(),
    decreases events.len(),
{
    if events.len() > 0 {
        lemma_unset_until_set(s, events.drop_last());
    }
}

/// A flag made with the value false reads false until a `set` or a `toggle`,
/// whatever its window is and however much time passes.
pub proof fn lemma_new_flag_false_until_set(duration: nat, now: nat, events: Seq<Event>)
    requires
        only_clears_and_polls(events),
    ensures
        !FlagState::initial(false, duration, now).run(events).is_true(),
{
    lemma_unset_until_set(FlagState::initial(false, duration, now), events);
}

/// Right after a `set` the flag reads true. Where it is not pinned, the `set`
/// has put the deadline at its own clock reading plus the window.
pub proof fn lemma_set_reads_true(s: FlagState, now: nat)
    ensures
        s.after_set(now).is_true(),
        !s.pinned ==> s.after_set(now).is_timed_true(),
        !s.pinned ==> s.after_set(now).deadline() == now + s.duration,
        s.pinned ==> s.after_set(now) == s,
        s.pinned ==> s.set_action(now) == SetAction::Nothing,
{
}

/// A poll up to the deadline changes nothing and sends the watcher to sleep.
pub proof fn lemma_poll_before_deadline(s: FlagState, now: nat)
    requires
        now <= s.deadline(),
    ensures
        s.after_poll(now) == s,
        s.poll_action(now) == WatchAction::Sleep,
{
}

/// A poll past the deadline takes the timed value away and ends the watcher;
/// a flag that is not pinned reads false from then on.
pub proof fn lemma_poll_past_deadline(s: FlagState, now: nat)
    requires
        now > s.deadline(),
    ensures
        s.after_poll(now) == s.after_clear(),
        s.poll_action(now) == WatchAction::Stop,
        !s.pinned ==> s.after_poll(now).is_unset(),
{
}

/// A watcher that polls every `interval` sees the expiry no later than
/// `interval` after the deadline: if the poll at `now` finds the `set`
/// fresh and the next one finds it stale, that next poll lies past the deadline
/// by at most `interval`, and a flag that is not pinned reads false after it.
pub proof fn lemma_expiry_seen_within_interval(s: FlagState, now: nat, interval: nat)
    requires
        !s.stale(now),
        s.after_poll(now).stale(now + interval),
    ensures
        s.deadline() < now + interval <= s.deadline() + interval,
        s.after_poll(now).poll_action(now + interval) == WatchAction::Stop,
        !s.pinned ==> !s.after_poll(now).after_poll(now + interval).is_true(),
{
}

/// Polls up to the deadline, however many, change nothing.
pub proof fn lemma_polls_before_deadline(s: FlagState, start: nat, interval: nat, n: nat)
    requires
        n > 0 ==> poll_time(start, interval, (n - 1) as nat) <= s.deadline(),
    ensures
        s.run(polls(start, interval, n)) == s,
    decreases n,
{
    if n > 0 {
        let before = (n - 1) as nat;
        assert(polls(start, interval, n).drop_last() =~= polls(start, interval, before));
        if before > 0 {
            assert((before - 1) * interval <= before * interval) by (nonlinear_arith)
                requires
                    before > 0,
                    interval >= 0,
            ;
        }
        lemma_polls_before_deadline(s, start, interval, before);
    }
}

/// A watcher that begins before the deadline and polls every `interval`
/// stops within one interval after the deadline, if no `set` moves it. The
/// result `k` counts the polls that answer `Sleep` and change nothing; the
/// poll after them lies past the deadline by at most `interval`, answers
/// `Stop`, and leaves a flag that is not pinned unset.
pub proof fn lemma_watcher_stops_within_interval(s: FlagState, start: nat, interval: nat) -> (k: nat)
    requires
        start <= s.deadline(),
        interval > 0,
    ensures
        k >= 1,
        s.deadline() < poll_time(start, interval, k) <= s.deadline() + interval,
        forall|i: nat| i < k ==> s.poll_action(#[trigger] poll_time(start, interval, i)) == WatchAction::Sleep,
        s.run(polls(start, interval, k)) == s,
        s.poll_action(poll_time(start, interval, k)) == WatchAction::Stop,
        s.after_poll(poll_time(start, interval, k)) == s.after_clear(),
        !s.pinned ==> s.after_poll(poll_time(start, interval, k)).is_unset(),
{
    let room = (s.deadline() - start) as nat;
    let full = room / interval;
    let k = full + 1;
    assert(full * interval <= room < full * interval + interval) by (nonlinear_arith)
        requires
            interval > 0,
            room >= 0,
            full == room / interval,
    ;
    assert(k * interval == full * interval + interval) by (nonlinear_arith)
        requires
            k == full + 1,
    ;
    assert forall|i: nat| i < k implies s.poll_action(#[trigger] poll_time(start, interval, i))
        == WatchAction::Sleep by {
        assert(i * interval <= full * interval) by (nonlinear_arith)
            requires
                i <= full,
                interval > 0,
        ;
        assert(poll_time(start, interval, i) <= s.deadline());
    }
    assert(poll_time(start, interval, full) <= s.deadline());
    lemma_polls_before_deadline(s, start, interval, k);
    k
}

/// Where `set`s and polls come in time, so do the first `k` of them.
pub proof fn lemma_keeps_fresh_so_far(s: FlagState, events: Seq<Event>, k: int)
    requires
        s.keeps_fresh(events),
        0 <= k <= events.len(),
    ensures
        s.keeps_fresh(events.take(k)),
    decreases events.len(),
{
    if k == events.len() {
        assert(events.take(k) =~= events);
    } else {
        assert(events.take(k) =~= events.drop_last().take(k));
        lemma_keeps_fresh_so_far(s, events.drop_last(), k);
    }
}

/// While every `set` and every poll comes before the `set` before it is
/// stale, a flag that is timed true stays timed true and no further watcher is
/// asked for. Its deadline is the clock reading of the last `set` plus the
/// window.
pub proof fn lemma_episode_goes_on(s: FlagState, events: Seq<Event>)
    requires
        s.is_timed_true(),
        s.keeps_fresh(events),
    ensures
        s.run(events).is_timed_true(),
        s.run(events).is_true(),
        s.watchers_started(events) == 0,
        s.run(events).duration == s.duration,
        s.run(events).last_set == latest_set(events, s.last_set),
        s.run(events).deadline() == latest_set(events, s.last_set) + s.duration,
    decreases events.len(),
{
    if events.len() > 0 {
        lemma_episode_goes_on(s, events.drop_last());
    }
}

/// An episode has one watcher: the `set` that begins it asks for one, and the
/// `set`s and polls that follow in time ask for none, however many they are.
/// The flag reads true after each of them, and in the end its deadline is the
/// clock reading of the last `set` plus the window.
pub proof fn lemma_one_watcher_per_episode(s: FlagState, now: nat, events: Seq<Event>)
    requires
        s.begins_episode(now),
        s.after_set(now).keeps_fresh(events),
    ensures
        s.set_action(now) == SetAction::StartWatcher,
        s.watchers_started(seq![Event::SetAt(now)] + events) == 1,
        forall|k: int|
            0 <= k <= events.len() ==> (#[trigger] s.after_set(now).run(events.take(k))).is_true(),
        s.run(seq![Event::SetAt(now)] + events).is_timed_true(),
        s.run(seq![Event::SetAt(now)] + events).deadline() == latest_set(events, now) + s.duration,
{
    lemma_run_from_first(s, Event::SetAt(now), events);
    lemma_episode_goes_on(s.after_set(now), events);
    assert forall|k: int| 0 <= k <= events.len() implies (#[trigger] s.after_set(now).run(
        events.take(k),
    )).is_true() by {
        lemma_keeps_fresh_so_far(s.after_set(now), events, k);
        lemma_episode_goes_on(s.after_set(now), events.take(k));
    }
}

/// A `set` within the window of a running episode asks for no watcher.
pub proof fn lemma_refresh_starts_no_watcher(s: FlagState, now: nat)
    requires
        s.is_timed_true(),
        now <= s.deadline(),
    ensures
        s.set_action(now) == SetAction::Nothing,
        s.after_set(now).is_timed_true(),
        s.after_set(now).deadline() == now + s.duration,
{
}

/// `set_false` makes a flag that is not pinned read false at once, and does
/// nothing to a pinned one.
pub proof fn lemma_clear(s: FlagState)
    requires
        s.valid(),
    ensures
        !s.pinned ==> s.after_clear().is_unset(),
        !s.pinned ==> !s.after_clear().is_true(),
        s.pinned ==> s.after_clear() == s,
        s.pinned ==> s.after_clear().is_true(),
{
}

/// `toggle` on a flag that is timed true cancels it: the answer is false and
/// the flag is unset.
pub proof fn lemma_toggle_cancels(s: FlagState)
    requires
        s.is_timed_true(),
    ensures
        !s.toggle_result(),
        s.after_toggle().is_unset(),
        !s.after_toggle().is_true(),
{
}

/// `toggle` on an unset flag pins it and answers true; on a pinned flag it
/// takes the pin away and answers false.
pub proof fn lemma_toggle_pins(s: FlagState)
    ensures
        s.is_unset() ==> s.toggle_result() && s.after_toggle().is_pinned(),
        s.is_pinned() ==> !s.toggle_result() && s.after_toggle().is_unset(),
{
}

/// Successive `toggle`s on an unset flag answer true, false, true and so on:
/// after an even number of them the flag is as it was, after an odd number it
/// is pinned, and the next answer is true exactly after an even number.
pub proof fn lemma_toggle_alternates(s: FlagState, n: nat)
    requires
        s.is_unset(),
    ensures
        n % 2 == 0 ==> s.run(toggles(n)) == s,
        n % 2 == 1 ==> s.run(toggles(n)) == (FlagState { pinned: true, ..s }),
        s.run(toggles(n)).toggle_result() == (n % 2 == 0),
        s.run(toggles(n)).is_true() == (n % 2 == 1),
    decreases n,
{
    if n > 0 {
        let before = (n - 1) as nat;
        lemma_toggle_alternates(s, before);
        assert(toggles(n).drop_last() =~= toggles(before));
    }
}

/// A pinned flag stays as it is, and so reads true, until a `toggle`: `set`,
/// `set_false` and polls at any clock reading change nothing, and no `set`
/// asks for a watcher.
pub proof fn lemma_pinned_until_toggle(s: FlagState, events: Seq<Event>)
    requires
        s.is_pinned(),
        no_toggle(events),
    ensures
        s.run(events) == s,
        s.run(events).is_true(),
        s.watchers_started(events) == 0,
    decreases events.len(),
{
    if events.len() > 0 {
        lemma_pinned_until_toggle(s, events.drop_last());
    }
}

} // verus!
