//! Input device interfaces.

pub mod touchscreen;
