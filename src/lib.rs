//! A work-hours ledger: time points, intervals between them, days that sum
//! their intervals against a target, a week of days, and an undo journal over
//! week snapshots.
pub mod span;
pub mod time_point;
pub mod interval;
pub mod day;
pub mod state;
pub mod history;
pub mod format;

pub use day::Day;
pub use format::{format_duration, format_todo, DURATION_FORMAT};
pub use history::HistoryBuffer;
pub use interval::Duration;
pub use span::Span;
pub use state::State;
pub use time_point::{clamp_digit, RangeError, TimePoint};
