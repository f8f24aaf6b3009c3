//! Firmware buffer-size diagnostic, modelled as a verified library.
//!
//! The program this library supports probes how large a single file read
//! and a single page allocation the host firmware will satisfy, growing a
//! candidate size from a fixed start by a fixed increment up to a fixed
//! ceiling, and aborting loudly on the first failure.  The probe schedule,
//! the fail-fast decision logic and the human-readable log lines are pure
//! and live here; the firmware calls themselves (file open/read, page
//! allocation and release, console output) are I/O and stay with the
//! surrounding program.

use vstd::prelude::*;

pub mod format;
pub mod messages;
pub mod probe;
pub mod schedule;

verus! {

/// One kibibyte.
pub const KB: u64 = 1024;

/// One mebibyte.
pub const MB: u64 = KB * 1024;

/// One gibibyte.
pub const GB: u64 = MB * 1024;

/// First probe size attempted by either prober: 100 MiB.
pub const START_SIZE: u64 = MB * 100;

/// Amount by which the probe size grows after each successful attempt.
pub const INCREMENT: u64 = MB * 100;

/// Ceiling: the largest size either prober may attempt is the last
/// schedule value that does not exceed this bound.
pub const MAX_SIZE: u64 = GB * 2;

/// Duration of the final pause before the program exits, in microseconds.
pub const STALL_MICROS: u64 = 100000000;

} // verus!
