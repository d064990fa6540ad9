//! Safe, verified core of a NuttX character-device binding: the wire-record
//! layouts, flag predicates and result-interpretation rules for the
//! touchscreen input driver and the framebuffer driver.
//!
//! The library itself performs no system calls. A caller opens the device
//! node, issues the reads and device-control requests, and hands the raw
//! outcomes (return codes and record bytes) to the functions here, which
//! decide and decode under the contracts below.

pub mod bytes;
pub mod input;
pub mod video;
