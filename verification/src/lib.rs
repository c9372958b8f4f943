//! Adapt an imperative "check a condition" probe into a unit of
//! cooperatively scheduled work.
//!
//! A suspension unit wraps a user-supplied probe and is polled by a host
//! scheduler. On every poll the probe is invoked exactly once. If it
//! signals completion the unit reports ready (with the produced value, if
//! any) and is spent; otherwise the unit files a wake request on the
//! scheduler's resume handle before reporting pending, so the scheduler is
//! guaranteed to poll it again. Omitting that wake request is the classic
//! bug this design rules out: a scheduler that parks units until woken
//! would stall forever. The price is busy-polling: the unit is re-polled
//! every scheduling turn, which is deliberate and makes this a fallback
//! for probes with no event-driven readiness source, not a general-purpose
//! waiting primitive.

pub mod driver;
pub mod handle;
pub mod probe;
pub mod unit;

pub use driver::run;
pub use driver::run_value;
pub use driver::RunReport;
pub use handle::HandleState;
pub use handle::ResumeHandle;
pub use probe::BoolProbe;
pub use probe::ScriptedBoolProbe;
pub use probe::ScriptedValueProbe;
pub use probe::ValueProbe;
pub use unit::until_some;
pub use unit::until_true;
pub use unit::UnitPoll;
pub use unit::UntilSome;
pub use unit::UntilTrue;
