//! The flag of a process that started in a reduced-trust state.
//!
//! Some kernels tell a process whether it was started with privileges that
//! differ from those of the user who started it, as a set-user-ID or
//! set-group-ID program is. Where the kernel says so, the flag is what it
//! says; where the platform has no such indicator, the flag is zero. Zero
//! therefore means "not tainted" or "not known", and is no proof of a clean
//! start. The flag is advice to the caller and enforces nothing.

use vstd::prelude::*;

verus! {

/// What the platform tells about the secure-execution state of the process.
#[derive(Clone, Copy, Debug, PartialEq, Eq, Structural)]
pub enum SecureExecution {
    /// The kernel keeps a secure-execution indicator; this is its raw value.
    Indicator(u64),
    /// The platform has no such indicator.
    Unsupported,
}

/// The taint flag for a report: the raw indicator, or zero without one.
pub open spec fn taint_flag(report: SecureExecution) -> u64 {
    match report {
        SecureExecution::Indicator(raw) => raw,
        SecureExecution::Unsupported => 0,
    }
}

/// Whether a flag says "tainted". Only zero and non-zero are told apart: the
/// number itself means nothing more.
pub open spec fn is_tainted(flag: u64) -> bool {
    flag != 0
}

/// The taint flag of the process, from what the platform reports.
///
/// The flag depends on the report alone, so it is the same on every call
/// for as long as the platform reports the same.
#[allow(non_snake_case)]
pub fn IsProcessTainted(report: SecureExecution) -> (flag: u64)
    ensures
        flag == taint_flag(report),
        report is Unsupported ==> flag == 0,
        is_tainted(flag) <==> (report matches SecureExecution::Indicator(raw) && raw != 0),
{
    match report {
        SecureExecution::Indicator(raw) => raw,
        SecureExecution::Unsupported => 0,
    }
}

} // verus!
