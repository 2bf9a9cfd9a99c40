//! Deterministic simulator core for a differential-drive line-following robot.
//!
//! The robot's control program runs as a sandboxed guest; this crate holds the
//! host side of the guest-visible ABI (sensor reads, sleeps, a future/handle
//! table, motor-power writes, a time source), the fixed-step simulation
//! recorder, and the numerical models for the track line, the line-reflectance
//! sensors and the DC motors.  All geometry is carried in integer units
//! (nanometres and microdegrees) so that every model is exact and checkable.

pub mod blocking_api;
pub mod colliders;
pub mod driver;
pub mod exec_data;
pub mod host;
pub mod host_laws;
pub mod motors;
pub mod reflectance;
pub mod sensors;
pub mod stepper;
pub mod track;

pub use track::Side;
