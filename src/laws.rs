//! Laws of the pause accounting, stated over the session's view.

use vstd::prelude::*;
use crate::session::{Session, SessionView};

verus! {

/// The session after pausing or resuming at each of `times` in turn.
pub open spec fn replay(s: SessionView, times: Seq<nat>) -> SessionView
    decreases times.len(),
{
    if times.len() == 0 {
        s
    } else {
        replay(s.toggled(times[0]), times.drop_first())
    }
}

/// The time a session runs from `from` to `until`, where it starts paused
/// or not as `paused` says and is paused or resumed at each of `times`.
pub open spec fn running_time(paused: bool, from: nat, times: Seq<nat>, until: nat) -> int
    decreases times.len(),
{
    if times.len() == 0 {
        if paused {
            0
        } else {
            until - from
        }
    } else {
        (if paused {
            0
        } else {
            times[0] - from
        }) + running_time(!paused, times[0], times.drop_first(), until)
    }
}

/// `from`, then each of `times`, then `until`, in the order of the clock.
pub open spec fn chronological(from: nat, times: Seq<nat>, until: nat) -> bool
    decreases times.len(),
{
    if times.len() == 0 {
        from <= until
    } else {
        from <= times[0] && chronological(times[0], times.drop_first(), until)
    }
}

proof fn lemma_replay_elapsed(s: SessionView, from: nat, times: Seq<nat>, until: nat)
    requires
        s.in_order_at(from),
        chronological(from, times, until),
        until <= u128::MAX,
    ensures
        from <= until,
        running_time(s.is_paused(), from, times, until) >= 0,
        replay(s, times).in_order_at(until),
        replay(s, times).elapsed(until) == s.elapsed(from) + running_time(
            s.is_paused(),
            from,
            times,
            until,
        ),
        replay(s, times).mode == s.mode,
        replay(s, times).duration == s.duration,
    decreases times.len(),
{
    if times.len() > 0 {
        let t = times[0];
        let next = s.toggled(t);
        lemma_replay_elapsed(next, t, times.drop_first(), until);
        assert(next.in_order_at(t));
        assert(next.elapsed(t) == s.elapsed(from) + (if s.is_paused() {
            0
        } else {
            t - from
        }));
    }
}

/// Pausing costs nothing: between a moment `from` and a later moment `until`
/// at both of which the session runs, with pauses and resumptions at each of
/// `times` between them, the time left drops by exactly the time the session
/// ran, all paused time excluded. This holds where the clock's readings come
/// in order, the first of them no earlier than the session's reference
/// moment, and the session has not run out by `until`.
pub proof fn lemma_zero_drift(s: Session, from: nat, times: Seq<nat>, until: nat)
    requires
        !s@.is_paused(),
        s@.started_at <= from,
        chronological(from, times, until),
        until <= u128::MAX,
        !replay(s@, times).is_paused(),
        replay(s@, times).elapsed(until) <= s@.duration,
    ensures
        s@.remaining(from) - replay(s@, times).remaining(until) == running_time(
            false,
            from,
            times,
            until,
        ),
{
    lemma_replay_elapsed(s@, from, times, until);
}

/// A session has ended exactly when no time is left, at every moment but the
/// one at which the elapsed time equals the length: there no time is left and
/// the session has not yet ended.
pub proof fn lemma_ended_iff_none_left(s: Session, now: nat)
    requires
        s@.elapsed(now) != s@.duration,
    ensures
        s@.ended(now) <==> s@.remaining(now) == 0,
{
}

/// Pausing and resuming at one moment gives back the session as it was.
/// Resuming and pausing at one moment, no earlier than the moment of
/// pausing, leaves the time left unchanged at every moment and the session
/// paused.
pub proof fn lemma_toggle_twice(s: Session, now: nat, later: nat)
    requires
        now <= u128::MAX,
        s@.paused_at matches Some(p) ==> p <= now,
    ensures
        !s@.is_paused() ==> s@.toggled(now).toggled(now) == s@,
        s@.toggled(now).toggled(now).remaining(later) == s@.remaining(later),
        s@.toggled(now).toggled(now).is_paused() == s@.is_paused(),
{
    s.lemma_view_bounded();
}

} // verus!
