//! The log lines and abort diagnostics the diagnostic produces.
//!
//! The console log is the program's only observable output, so each line
//! is pinned down exactly: one line per startup banner, per prober
//! header, per successful or attempted operation (with the size rendered
//! by the byte formatter), and one terminal line per prober when the
//! ceiling is reached.  Every fatal condition gets a diagnostic naming
//! the operation, the attempted size and the platform status code.

use vstd::prelude::*;

use crate::format::decimal_digits;
use crate::format::decimal_string;
use crate::format::format_bytes;
use crate::format::spec_format_bytes;
use crate::probe::ProbeError;
use crate::MAX_SIZE;

verus! {

/// Name of the probe file opened on the boot volume each iteration.
pub fn probe_file_name() -> (s: &'static str)
    ensures
        s@ == "ABC"@,
{
    "ABC"
}

/// The startup banner.
pub open spec fn spec_banner_line() -> Seq<char> {
    "Starting EFI size checker..."@
}

/// The line announcing the file-read prober.
pub open spec fn spec_file_header_line() -> Seq<char> {
    "start to do file read check..."@
}

/// The line announcing the allocation prober.
pub open spec fn spec_alloc_header_line() -> Seq<char> {
    "start to do memory allocation check..."@
}

/// The line logged before a read is attempted at `size`.
pub open spec fn spec_read_attempt_line(size: u64) -> Seq<char> {
    "Reading "@ + spec_format_bytes(size) + " bytes into buffer"@
}

/// The line logged after a read of `size` bytes succeeded.
pub open spec fn spec_read_success_line(size: u64) -> Seq<char> {
    "Successfully read "@ + spec_format_bytes(size) + " into buffer"@
}

/// The line logged after an allocation of `size` bytes succeeded.
pub open spec fn spec_alloc_success_line(size: u64) -> Seq<char> {
    "Successfully allocated "@ + spec_format_bytes(size) + " mem"@
}

/// The line logged after a region of `size` bytes was released.
pub open spec fn spec_free_success_line(size: u64) -> Seq<char> {
    "Successfully freed "@ + spec_format_bytes(size) + " mem"@
}

/// The terminal line of a prober that reached the ceiling: it shows the
/// ceiling itself, never the first candidate size beyond it.
pub open spec fn spec_ceiling_line() -> Seq<char> {
    "Max buffer size reached: "@ + spec_format_bytes(MAX_SIZE)
}

/// The abort diagnostic for a fatal condition: the operation, the
/// attempted size and the platform status code.
pub open spec fn spec_error_message(e: ProbeError) -> Seq<char> {
    match e {
        ProbeError::Init { status } => "Failed to initialize platform services: status "@
            + decimal_digits(status as nat),
        ProbeError::Open { size, status } => "Failed to open file ABC at "@ + spec_format_bytes(
            size,
        ) + ": status "@ + decimal_digits(status as nat),
        ProbeError::Read { size, status } => "Failed to read "@ + spec_format_bytes(size)
            + " into buffer: status "@ + decimal_digits(status as nat),
        ProbeError::Alloc { size, status } => "Failed to allocate "@ + spec_format_bytes(size)
            + " mem: status "@ + decimal_digits(status as nat),
        ProbeError::Free { size, status } => "Failed to free "@ + spec_format_bytes(size)
            + " mem: status "@ + decimal_digits(status as nat),
    }
}

/// The startup banner.
pub fn banner_line() -> (s: String)
    ensures
        s@ == spec_banner_line(),
{
    String::from_str("Starting EFI size checker...")
}

/// The line announcing the file-read prober.
pub fn file_header_line() -> (s: String)
    ensures
        s@ == spec_file_header_line(),
{
    String::from_str("start to do file read check...")
}

/// The line announcing the allocation prober.
pub fn alloc_header_line() -> (s: String)
    ensures
        s@ == spec_alloc_header_line(),
{
    String::from_str("start to do memory allocation check...")
}

/// The line logged before a read is attempted at `size`.
pub fn read_attempt_line(size: u64) -> (s: String)
    ensures
        s@ == spec_read_attempt_line(size),
{
    let mut s = String::from_str("Reading ");
    let f = format_bytes(size);
    s.append(f.as_str());
    s.append(" bytes into buffer");
    proof {
        assert(s@ =~= spec_read_attempt_line(size));
    }
    s
}

/// The line logged after a read of `size` bytes succeeded.
pub fn read_success_line(size: u64) -> (s: String)
    ensures
        s@ == spec_read_success_line(size),
{
    let mut s = String::from_str("Successfully read ");
    let f = format_bytes(size);
    s.append(f.as_str());
    s.append(" into buffer");
    proof {
        assert(s@ =~= spec_read_success_line(size));
    }
    s
}

/// The line logged after an allocation of `size` bytes succeeded.
pub fn alloc_success_line(size: u64) -> (s: String)
    ensures
        s@ == spec_alloc_success_line(size),
{
    let mut s = String::from_str("Successfully allocated ");
    let f = format_bytes(size);
    s.append(f.as_str());
    s.append(" mem");
    proof {
        assert(s@ =~= spec_alloc_success_line(size));
    }
    s
}

/// The line logged after a region of `size` bytes was released.
pub fn free_success_line(size: u64) -> (s: String)
    ensures
        s@ == spec_free_success_line(size),
{
    let mut s = String::from_str("Successfully freed ");
    let f = format_bytes(size);
    s.append(f.as_str());
    s.append(" mem");
    proof {
        assert(s@ =~= spec_free_success_line(size));
    }
    s
}

/// The terminal line of a prober that reached the ceiling.
pub fn ceiling_line() -> (s: String)
    ensures
        s@ == spec_ceiling_line(),
{
    let mut s = String::from_str("Max buffer size reached: ");
    let f = format_bytes(MAX_SIZE);
    s.append(f.as_str());
    proof {
        assert(s@ =~= spec_ceiling_line());
    }
    s
}

/// The abort diagnostic for a fatal condition.
pub fn error_message(e: &ProbeError) -> (s: String)
    ensures
        s@ == spec_error_message(*e),
{
    match e {
        ProbeError::Init { status } => {
            let mut s = String::from_str("Failed to initialize platform services: status ");
            let d = decimal_string(*status);
            s.append(d.as_str());
            proof {
                assert(s@ =~= spec_error_message(*e));
            }
            s
        },
        ProbeError::Open { size, status } => {
            let mut s = String::from_str("Failed to open file ABC at ");
            let f = format_bytes(*size);
            s.append(f.as_str());
            s.append(": status ");
            let d = decimal_string(*status);
            s.append(d.as_str());
            proof {
                assert(s@ =~= spec_error_message(*e));
            }
            s
        },
        ProbeError::Read { size, status } => {
            let mut s = String::from_str("Failed to read ");
            let f = format_bytes(*size);
            s.append(f.as_str());
            s.append(" into buffer: status ");
            let d = decimal_string(*status);
            s.append(d.as_str());
            proof {
                assert(s@ =~= spec_error_message(*e));
            }
            s
        },
        ProbeError::Alloc { size, status } => {
            let mut s = String::from_str("Failed to allocate ");
            let f = format_bytes(*size);
            s.append(f.as_str());
            s.append(" mem: status ");
            let d = decimal_string(*status);
            s.append(d.as_str());
            proof {
                assert(s@ =~= spec_error_message(*e));
            }
            s
        },
        ProbeError::Free { size, status } => {
            let mut s = String::from_str("Failed to free ");
            let f = format_bytes(*size);
            s.append(f.as_str());
            s.append(" mem: status ");
            let d = decimal_string(*status);
            s.append(d.as_str());
            proof {
                assert(s@ =~= spec_error_message(*e));
            }
            s
        },
    }
}

} // verus!
