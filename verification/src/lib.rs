//! Platform primitives for POSIX systems: classification of native error
//! codes, the convention for turning raw system-call results into results,
//! the lifecycle of native locks, stack guard placement, byte-oriented
//! platform strings and the handles of the standard streams.
//!
//! Nothing in this crate touches the operating system by itself beyond
//! reading constants and the calling thread's last error code. Every decision
//! that depends on the outcome of a native call takes that outcome as a plain
//! value, so that each rule is stated and proved over plain data.

pub mod cvt;
pub mod io;
pub mod mutex;
mod native;
pub mod os_str;
pub mod stdio;
pub mod target;
pub mod thread;

use crate::io::{classify, spec_classify, ErrorKind, NativeCodes};
use crate::native::last_error_code;
use crate::target::Target;
use crate::thread::guard::{spec_init, GuardFault, GuardPlan, StackInfo};
use vstd::prelude::*;

verus! {

/// The platform layer as a whole: what a runtime asks of it once, at its
/// start, and the facilities that belong to no one type.
#[derive(Debug, PartialEq, Eq, PartialOrd, Ord, Copy, Clone, Hash)]
pub struct Std;

/// What the process has to do at its start, before any input or output.
#[derive(Clone, Copy, Debug, PartialEq, Eq, Structural)]
pub enum Startup {
    /// Nothing: the platform has no signals to set.
    Nothing,
    /// Set the signal for a broken pipe to be ignored, so that writing to a
    /// closed pipe fails with an error and does not end the process.
    IgnoreBrokenPipe,
}

/// What is to be done at the start of a process on `target`: the signal for
/// a broken pipe is ignored wherever the platform has signals, which is
/// everywhere but on Emscripten and Fuchsia.
pub open spec fn spec_startup(target: Target) -> Startup {
    if target == Target::Emscripten || target == Target::Fuchsia {
        Startup::Nothing
    } else {
        Startup::IgnoreBrokenPipe
    }
}

impl Std {
    /// The calling thread's last native error code, and zero where the
    /// platform reports none.
    pub fn last_os_error() -> i32 {
        let report = last_error_code();
        let code = reported_code(report);

        code
    }

    /// What the process has to do at its start. The answer depends on the
    /// platform alone, so asking again, and doing it again, changes nothing.
    pub fn init(target: Target) -> (action: Startup)
        ensures
            action == spec_startup(target),
    {
        if target == Target::Emscripten || target == Target::Fuchsia {
            Startup::Nothing
        } else {
            Startup::IgnoreBrokenPipe
        }
    }

    /// The portable kind of the native error code `errno` on the platform
    /// whose table is `codes`.
    pub fn decode_error_kind(errno: i32, codes: &NativeCodes) -> (kind: ErrorKind)
        ensures
            kind == spec_classify(*codes, errno),
    {
        classify(codes, errno)
    }

    /// Plans the guard of the calling thread at its start.
    pub fn thread_guard_init(target: Target, info: StackInfo, page_size: usize) -> (r: Result<
        GuardPlan,
        GuardFault,
    >)
        ensures
            r == spec_init(target, info, page_size),
    {
        crate::thread::guard::init(target, info, page_size)
    }
}

/// The code that a report of the last native error holds, and zero where the
/// platform reported none.
pub open spec fn spec_reported_code(report: Option<i32>) -> i32 {
    match report {
        Some(code) => code,
        None => 0,
    }
}

/// Takes the native error code out of what the platform reported.
pub fn reported_code(report: Option<i32>) -> (code: i32)
    ensures
        code == spec_reported_code(report),
{
    match report {
        Some(code) => code,
        None => 0,
    }
}

} // verus!
