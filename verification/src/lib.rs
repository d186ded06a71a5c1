//! Mars clock library: converts Earth instants (Unix seconds) to Mars time.
//!
//! All time and angle quantities are held as exact fixed-point integers:
//! elapsed time in microseconds, angles in micro-degrees, so that every
//! conversion step is plain integer arithmetic with a proved contract.

pub mod converter;
pub mod longitude;
pub mod modular;
pub mod present;

pub use converter::MarsTime;
pub use converter::earth_time_to_mars_time;
pub use longitude::local_solar_time;
pub use present::format_mars_time;
