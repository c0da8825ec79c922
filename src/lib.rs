//! A Pomodoro countdown timer: sessions with pause-aware time accounting and
//! the cycle of focus sessions and breaks.

pub mod clock;
pub mod session;
pub mod cycle;
pub mod representation;
pub mod layout;
pub mod laws;

pub use clock::{Clock, Moment, Span};
pub use session::{PomoConfig, Session, SessionMode};
pub use cycle::{next_in_cycle, PomoState, PomoViews, Transition};
pub use representation::{clock_chars, IntoRepresentation};
pub use layout::centered_margin;
