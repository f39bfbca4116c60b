//! Wake-on-the-boundary timing.
//!
//! A [`Timelength`] names a standard span of wall-clock time. The functions of
//! [`boundary`] align UNIX-epoch millisecond timestamps to the multiples of such
//! a span, and [`clock`] applies them to the system clock. Nothing here
//! suspends the caller: a [`Wait`] says how long to suspend and what to report
//! afterwards, and the caller's own timer does the waiting.

pub mod boundary;
pub mod clock;
pub mod error;
pub mod timelength;

pub use boundary::{
    boundary_at_or_before, interval_before, plan_wait_until, plan_wait_until_timelength, Wait,
};
pub use clock::{last_timelength_interval, unix_timestamp_ms};
pub use error::TimingError;
pub use timelength::{get_timelength_in_ms, ParseError, Timelength};
