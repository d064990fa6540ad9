//! Video device interfaces.

pub mod fb;
