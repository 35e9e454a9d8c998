//! A discrete-time PID controller core over saturating fixed-point numbers.
//!
//! Every quantity (gains, limits, sample period, signals) is a [`fixed::Fixed`]:
//! a signed count of millionths. Arithmetic never wraps and never panics: a
//! result that leaves the representable range sticks to the nearest end of it.
//!
//! [`pid::Pid`] is the controller, [`utils::limit`] the saturation it applies
//! to its output, and [`model`] the mathematics that their contracts speak of.

pub mod fixed;
pub mod utils;
pub mod model;
pub mod pid;
