//! Sessions: a mode, its configured length, and the bookkeeping that keeps
//! paused time out of the countdown.

use vstd::prelude::*;
use crate::clock::{Clock, Moment, Span, NANOS_PER_MINUTE};

verus! {

/// The kind of a session.
#[derive(Clone, Copy, Debug, PartialEq, Eq, Structural, Hash)]
pub enum SessionMode {
    LongSession,
    ShortBreak,
    LongBreak,
}

impl SessionMode {
    /// The label shown for the mode.
    pub fn label(&self) -> (r: &'static str)
        ensures
            r@ == mode_label(*self),
    {
        match self {
            SessionMode::LongSession => "LongSession",
            SessionMode::ShortBreak => "ShortBreak",
            SessionMode::LongBreak => "LongBreak",
        }
    }
}

/// The label of each mode.
pub open spec fn mode_label(mode: SessionMode) -> Seq<char> {
    match mode {
        SessionMode::LongSession => "LongSession"@,
        SessionMode::ShortBreak => "ShortBreak"@,
        SessionMode::LongBreak => "LongBreak"@,
    }
}

/// The length of each kind of session, in whole minutes.
#[derive(Clone, Copy, Debug, PartialEq, Eq, Structural)]
pub struct PomoConfig {
    pub long_session_minutes: u64,
    pub short_break_minutes: u64,
    pub long_break_minutes: u64,
}

impl PomoConfig {
    /// The minutes configured for `mode`.
    pub open spec fn minutes_of(&self, mode: SessionMode) -> nat {
        match mode {
            SessionMode::LongSession => self.long_session_minutes as nat,
            SessionMode::ShortBreak => self.short_break_minutes as nat,
            SessionMode::LongBreak => self.long_break_minutes as nat,
        }
    }

    /// The length configured for `mode`, in nanoseconds.
    pub open spec fn length_of(&self, mode: SessionMode) -> nat {
        self.minutes_of(mode) * (NANOS_PER_MINUTE as nat)
    }

    /// The length of a session of `mode`. Every mode has one.
    pub fn duration_of(&self, mode: SessionMode) -> (r: Span)
        ensures
            r.nanos == self.length_of(mode),
    {
        let minutes = match mode {
            SessionMode::LongSession => self.long_session_minutes,
            SessionMode::ShortBreak => self.short_break_minutes,
            SessionMode::LongBreak => self.long_break_minutes,
        };
        assert(minutes * NANOS_PER_MINUTE <= u128::MAX) by (nonlinear_arith)
            requires minutes <= u64::MAX;
        Span { nanos: minutes as u128 * NANOS_PER_MINUTE }
    }
}

impl Default for PomoConfig {
    /// Twenty-five minutes of focus, five of short break, fifteen of long
    /// break.
    fn default() -> (r: PomoConfig)
        ensures
            r.long_session_minutes == 25,
            r.short_break_minutes == 5,
            r.long_break_minutes == 15,
    {
        PomoConfig { long_session_minutes: 25, short_break_minutes: 5, long_break_minutes: 15 }
    }
}

/// What a session is, as mathematics: its mode and length, the reference
/// moment from which elapsed time counts, and the moment of pausing while it
/// is paused. All times are in nanoseconds.
pub ghost struct SessionView {
    pub mode: SessionMode,
    pub duration: nat,
    pub started_at: nat,
    pub paused_at: Option<nat>,
}

impl SessionView {
    /// The session fresh at `now`: running, with no time elapsed.
    pub open spec fn fresh(mode: SessionMode, duration: nat, now: nat) -> SessionView {
        SessionView { mode, duration, started_at: now, paused_at: None }
    }

    pub open spec fn is_paused(self) -> bool {
        self.paused_at is Some
    }

    /// The moment up to which time counts: the moment of pausing while
    /// paused, else `now`.
    pub open spec fn counted_until(self, now: nat) -> nat {
        match self.paused_at {
            Some(p) => p,
            None => now,
        }
    }

    /// The time that has counted against the session at `now`; zero where
    /// the clock reads earlier than the reference moment.
    pub open spec fn elapsed(self, now: nat) -> nat {
        let until = self.counted_until(now);
        if until >= self.started_at {
            (until - self.started_at) as nat
        } else {
            0
        }
    }

    /// The time left at `now`; zero once the elapsed time reaches the length.
    pub open spec fn remaining(self, now: nat) -> nat {
        if self.elapsed(now) <= self.duration {
            (self.duration - self.elapsed(now)) as nat
        } else {
            0
        }
    }

    /// Whether the elapsed time at `now` exceeds the length.
    pub open spec fn ended(self, now: nat) -> bool {
        self.elapsed(now) > self.duration
    }

    /// The session after pausing or resuming at `now`. Resuming moves the
    /// reference moment forward by the time spent paused (none where the
    /// clock reads earlier than the moment of pausing), saturating at the
    /// clock's last moment.
    pub open spec fn toggled(self, now: nat) -> SessionView {
        match self.paused_at {
            Some(p) => {
                let pause = if now >= p { (now - p) as nat } else { 0 };
                let shifted = if self.started_at + pause <= u128::MAX {
                    self.started_at + pause
                } else {
                    u128::MAX as nat
                };
                SessionView { started_at: shifted, paused_at: None, ..self }
            },
            None => SessionView { paused_at: Some(now), ..self },
        }
    }

    /// The readings are in clock order up to `now`: the reference moment
    /// comes no later than the moment of pausing, and both no later than
    /// `now`.
    pub open spec fn in_order_at(self, now: nat) -> bool {
        self.started_at <= self.counted_until(now) && self.counted_until(now) <= now
    }
}

/// A live session timer.
#[derive(Debug)]
pub struct Session {
    duration: Span,
    mode: SessionMode,
    started_at: Moment,
    paused_at: Option<Moment>,
}

impl View for Session {
    type V = SessionView;

    closed spec fn view(&self) -> SessionView {
        SessionView {
            mode: self.mode,
            duration: self.duration.nanos as nat,
            started_at: self.started_at.nanos as nat,
            paused_at: match self.paused_at {
                Some(p) => Some(p.nanos as nat),
                None => None,
            },
        }
    }
}

impl Session {
    /// A running session of `mode`, whose length `config` gives, that
    /// starts at `now`.
    pub fn init(mode: SessionMode, config: &PomoConfig, now: Moment) -> (r: Session)
        ensures
            r@ == SessionView::fresh(mode, config.length_of(mode), now.nanos as nat),
    {
        Session { duration: config.duration_of(mode), mode, started_at: now, paused_at: None }
    }

    /// A running session of `mode`, whose length `config` gives, that
    /// starts at the present reading of `clock`.
    pub fn new(mode: SessionMode, config: &PomoConfig, clock: &Clock) -> (r: Session)
        ensures
            r@ == SessionView::fresh(mode, config.length_of(mode), r@.started_at),
    {
        Session::init(mode, config, clock.now())
    }

    /// The time that counts against the session at `now`.
    fn elapsed_at(&self, now: Moment) -> (r: Span)
        ensures
            r.nanos == self@.elapsed(now.nanos as nat),
    {
        let until = match self.paused_at {
            Some(p) => p,
            None => now,
        };
        Span { nanos: until.nanos.saturating_sub(self.started_at.nanos) }
    }

    /// The time left at `now`, zero once the length has run out.
    pub fn remaining_at(&self, now: Moment) -> (r: Span)
        ensures
            r.nanos == self@.remaining(now.nanos as nat),
    {
        let elapsed = self.elapsed_at(now);
        Span { nanos: self.duration.nanos.saturating_sub(elapsed.nanos) }
    }

    /// Whether the elapsed time at `now` exceeds the length.
    pub fn is_ended_at(&self, now: Moment) -> (r: bool)
        ensures
            r == self@.ended(now.nanos as nat),
    {
        self.duration.nanos < self.elapsed_at(now).nanos
    }

    /// Whether the session is paused.
    pub fn is_paused(&self) -> (r: bool)
        ensures
            r == self@.is_paused(),
    {
        self.paused_at.is_some()
    }

    /// Pauses a running session at `now`, or resumes a paused one, moving
    /// its reference moment forward by the time it spent paused.
    pub fn toggle_pause_at(&mut self, now: Moment)
        ensures
            final(self)@ == old(self)@.toggled(now.nanos as nat),
    {
        match self.paused_at {
            Some(p) => {
                let pause = now.nanos.saturating_sub(p.nanos);
                self.started_at = Moment { nanos: self.started_at.nanos.saturating_add(pause) };
                self.paused_at = None;
            },
            None => {
                self.paused_at = Some(now);
            },
        }
    }
    /// The time left at the present reading of `clock`. While paused it is
    /// the time left at the moment of pausing, whatever the clock reads.
    pub fn remaining(&self, clock: &Clock) -> (r: Span)
        ensures
            exists|t: nat| t <= u128::MAX && r.nanos == self@.remaining(t),
            r.nanos <= self@.duration,
            self@.paused_at matches Some(p) ==> r.nanos == self@.remaining(p),
    {
        let now = clock.now();
        let r = self.remaining_at(now);
        assert(r.nanos == self@.remaining(now.nanos as nat));
        r
    }

    /// Whether the session has run out at the present reading of `clock`.
    /// While paused the answer is the one at the moment of pausing.
    pub fn is_ended(&self, clock: &Clock) -> (r: bool)
        ensures
            exists|t: nat| t <= u128::MAX && r == self@.ended(t),
            self@.paused_at matches Some(p) ==> r == self@.ended(p),
    {
        let now = clock.now();
        let r = self.is_ended_at(now);
        assert(r == self@.ended(now.nanos as nat));
        r
    }

    /// Pauses or resumes the session at the present reading of `clock`.
    pub fn toggle_pause(&mut self, clock: &Clock)
        ensures
            exists|t: nat| t <= u128::MAX && final(self)@ == old(self)@.toggled(t),
            final(self)@.mode == old(self)@.mode,
            final(self)@.duration == old(self)@.duration,
            final(self)@.is_paused() == !old(self)@.is_paused(),
    {
        let now = clock.now();
        self.toggle_pause_at(now);
        assert(self@ == old(self)@.toggled(now.nanos as nat));
    }

    /// Every time in the session's view is a reading or a length that the
    /// clock can hold.
    pub proof fn lemma_view_bounded(&self)
        ensures
            self@.started_at <= u128::MAX,
            self@.duration <= u128::MAX,
            self@.paused_at matches Some(p) ==> p <= u128::MAX,
    {
    }

    /// The mode of the session.
    pub fn mode(&self) -> (r: SessionMode)
        ensures
            r == self@.mode,
    {
        self.mode
    }

    /// The length of the session.
    pub fn duration(&self) -> (r: Span)
        ensures
            r.nanos == self@.duration,
    {
        self.duration
    }
}

} // verus!
