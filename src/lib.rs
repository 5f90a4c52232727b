//! Per-device calibration, geometry and status records for a sensor array,
//! and the assembly of point-in-time consistent collections of them for a run.

pub mod calibration;
pub mod clock;
pub mod gcd;
pub mod ids;
pub mod text;
pub mod errors;
pub mod models;
pub mod auth;
pub mod api;
