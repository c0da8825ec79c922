//! The cycle of sessions: a focus session is followed by a short break, and
//! every third one by a long break; a break is followed by a focus session.

use vstd::prelude::*;
use crate::clock::{Clock, Moment};
use crate::session::{PomoConfig, Session, SessionMode, SessionView};

verus! {

/// The focus sessions completed in a row after which a long break is due.
pub const SESSIONS_BEFORE_LONG_BREAK: u8 = 3;

/// The mode that follows the end of a session of `mode`, and the new count of
/// focus sessions completed since the last long break, where `count` were
/// completed before.
pub open spec fn cycle_step(mode: SessionMode, count: nat) -> (SessionMode, nat) {
    match mode {
        SessionMode::LongSession => if count + 1 == SESSIONS_BEFORE_LONG_BREAK {
            (SessionMode::LongBreak, 0)
        } else {
            (SessionMode::ShortBreak, count + 1)
        },
        _ => (SessionMode::LongSession, count),
    }
}

/// The mode that follows the end of a session of `mode`, and the new count of
/// focus sessions completed since the last long break.
pub fn next_in_cycle(mode: SessionMode, count: u8) -> (r: (SessionMode, u8))
    requires
        count < SESSIONS_BEFORE_LONG_BREAK,
    ensures
        (r.0, r.1 as nat) == cycle_step(mode, count as nat),
        r.1 < SESSIONS_BEFORE_LONG_BREAK,
{
    match mode {
        SessionMode::LongSession => {
            let completed = count + 1;
            if completed == SESSIONS_BEFORE_LONG_BREAK {
                (SessionMode::LongBreak, 0)
            } else {
                (SessionMode::ShortBreak, completed)
            }
        },
        SessionMode::ShortBreak => (SessionMode::LongSession, count),
        SessionMode::LongBreak => (SessionMode::LongSession, count),
    }
}

/// The end of one session and the mode of the one that replaced it.
#[derive(Clone, Copy, Debug, PartialEq, Eq, Structural)]
pub struct Transition {
    pub ended: SessionMode,
    pub next: SessionMode,
}

/// The message that announces each transition.
pub open spec fn transition_message(t: Transition) -> Seq<char> {
    match t.ended {
        SessionMode::LongSession => if t.next == SessionMode::LongBreak {
            "3 long sessions are over, take a deserved long break!"@
        } else {
            "Long session is over, take a short break!"@
        },
        SessionMode::LongBreak => "Long break is over!"@,
        SessionMode::ShortBreak => "Short break is over!"@,
    }
}

impl Transition {
    /// The message that announces the transition.
    pub fn message(&self) -> (r: &'static str)
        ensures
            r@ == transition_message(*self),
    {
        match self.ended {
            SessionMode::LongSession => match self.next {
                SessionMode::LongBreak => "3 long sessions are over, take a deserved long break!",
                _ => "Long session is over, take a short break!",
            },
            SessionMode::LongBreak => "Long break is over!",
            SessionMode::ShortBreak => "Short break is over!",
        }
    }

    /// Whether the transition ends a break, rather than a focus session.
    pub fn ends_break(&self) -> (r: bool)
        ensures
            r == (self.ended != SessionMode::LongSession),
    {
        !matches!(self.ended, SessionMode::LongSession)
    }
}

/// What the timer shows: its description, or the countdown.
#[derive(Clone, Copy, Debug, PartialEq, Eq, Structural)]
pub enum PomoViews {
    Description,
    Timer,
}

impl PomoViews {
    /// The other view.
    pub fn toggled(&self) -> (r: PomoViews)
        ensures
            r != *self,
    {
        match self {
            PomoViews::Description => PomoViews::Timer,
            PomoViews::Timer => PomoViews::Description,
        }
    }
}

/// The state of the timer: the live session, the view shown, and the focus
/// sessions completed since the last long break.
#[derive(Debug)]
pub struct PomoState {
    pub current_session: Session,
    pub current_view: PomoViews,
    pub prev_sessions: u8,
}

impl PomoState {
    /// The count of completed focus sessions stays below the number that
    /// earns a long break.
    pub open spec fn wf(&self) -> bool {
        self.prev_sessions < SESSIONS_BEFORE_LONG_BREAK
    }

    /// The state at the start: a focus session starting at `now`, the
    /// countdown shown, and no sessions completed.
    pub fn init(config: &PomoConfig, now: Moment) -> (r: PomoState)
        ensures
            r.wf(),
            r.current_session@ == SessionView::fresh(
                SessionMode::LongSession,
                config.length_of(SessionMode::LongSession),
                now.nanos as nat,
            ),
            r.current_view == PomoViews::Timer,
            r.prev_sessions == 0,
    {
        PomoState {
            current_session: Session::init(SessionMode::LongSession, config, now),
            current_view: PomoViews::Timer,
            prev_sessions: 0,
        }
    }

    /// Where the live session has run out at `now`, replaces it with the
    /// next one of the cycle, starting at `now`, and reports the
    /// transition; else changes nothing. A session that has just replaced
    /// another has not run out, so an end is acted on once.
    pub fn advance_at(&mut self, config: &PomoConfig, now: Moment) -> (r: Option<Transition>)
        requires
            old(self).wf(),
        ensures
            final(self).wf(),
            !old(self).current_session@.ended(now.nanos as nat) ==> r is None && *final(self)
                == *old(self),
            old(self).current_session@.ended(now.nanos as nat) ==> {
                let step = cycle_step(old(self).current_session@.mode, old(self).prev_sessions as nat);
                &&& r == Some(Transition { ended: old(self).current_session@.mode, next: step.0 })
                &&& final(self).current_session@ == SessionView::fresh(
                    step.0,
                    config.length_of(step.0),
                    now.nanos as nat,
                )
                &&& final(self).prev_sessions == step.1
                &&& final(self).current_view == old(self).current_view
            },
            !final(self).current_session@.ended(now.nanos as nat),
    {
        if self.current_session.is_ended_at(now) {
            let ended = self.current_session.mode();
            let (next, count) = next_in_cycle(ended, self.prev_sessions);
            self.current_session = Session::init(next, config, now);
            self.prev_sessions = count;
            Some(Transition { ended, next })
        } else {
            None
        }
    }

    /// Where the live session has run out at the present reading of
    /// `clock`, replaces it with the next one of the cycle and reports the
    /// transition.
    pub fn advance(&mut self, config: &PomoConfig, clock: &Clock) -> (r: Option<Transition>)
        requires
            old(self).wf(),
        ensures
            final(self).wf(),
            exists|t: nat|
                t <= u128::MAX && (r is Some <==> old(self).current_session@.ended(t)) && (r is Some
                    ==> final(self).current_session@.started_at == t),
            old(self).current_session@.paused_at matches Some(p) ==> (r is Some
                <==> old(self).current_session@.ended(p)),
            r is None ==> *final(self) == *old(self),
            r matches Some(t) ==> {
                let step = cycle_step(old(self).current_session@.mode, old(self).prev_sessions as nat);
                &&& t == Transition { ended: old(self).current_session@.mode, next: step.0 }
                &&& final(self).current_session@ == SessionView::fresh(
                    step.0,
                    config.length_of(step.0),
                    final(self).current_session@.started_at,
                )
                &&& final(self).prev_sessions == step.1
                &&& final(self).current_view == old(self).current_view
            },
    {
        let now = clock.now();
        let r = self.advance_at(config, now);
        assert(r is Some <==> old(self).current_session@.ended(now.nanos as nat));
        r
    }

    /// Switches between the description and the countdown.
    pub fn toggle_view(&mut self)
        ensures
            final(self).current_view != old(self).current_view,
            final(self).current_session == old(self).current_session,
            final(self).prev_sessions == old(self).prev_sessions,
    {
        self.current_view = self.current_view.toggled();
    }
}

} // verus!
