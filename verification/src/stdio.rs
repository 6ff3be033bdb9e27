//! The handles of the three standard streams.
//!
//! A handle owns nothing: it stands for a descriptor that is open for as
//! long as the process lives. Reading and writing is done by the caller, on
//! the descriptor that the handle names.

use crate::io::{Error, NativeCodes};
use crate::native::{stderr_fileno, stdin_fileno, stdout_fileno};
use vstd::prelude::*;

verus! {

pub struct Stdin(());

pub struct Stdout(());

pub struct Stderr(());

impl Stdin {
    /// The handle of standard input. It can always be had.
    pub fn new() -> (r: Result<Stdin, Error>)
        ensures
            r is Ok,
    {
        Ok(Stdin(()))
    }

    /// The descriptor to read from, which is 0.
    pub fn fd(&self) -> (fd: i32)
        ensures
            fd == 0,
    {
        stdin_fileno()
    }
}

impl Stdout {
    /// The handle of standard output. It can always be had.
    pub fn new() -> (r: Result<Stdout, Error>)
        ensures
            r is Ok,
    {
        Ok(Stdout(()))
    }

    /// The descriptor to write to, which is 1.
    pub fn fd(&self) -> (fd: i32)
        ensures
            fd == 1,
    {
        stdout_fileno()
    }

    /// Nothing is held back by the handle, so there is nothing to flush.
    pub fn flush(&mut self) -> (r: Result<(), Error>)
        ensures
            r is Ok,
    {
        Ok(())
    }
}

impl Stderr {
    /// The handle of standard error. It can always be had.
    pub fn new() -> (r: Result<Stderr, Error>)
        ensures
            r is Ok,
    {
        Ok(Stderr(()))
    }

    /// The descriptor to write to, which is 2.
    pub fn fd(&self) -> (fd: i32)
        ensures
            fd == 2,
    {
        stderr_fileno()
    }

    /// Nothing is held back by the handle, so there is nothing to flush.
    pub fn flush(&mut self) -> (r: Result<(), Error>)
        ensures
            r is Ok,
    {
        Ok(())
    }
}

/// Whether `err` says that a descriptor was bad, on the platform whose table
/// is `codes`: a process may be started with a standard stream closed, and
/// reads and writes on it then fail in this way.
pub fn is_ebadf(err: &Error, codes: &NativeCodes) -> (r: bool)
    ensures
        r == (err.code == codes.ebadf),
{
    match err.raw_os_error() {
        Some(code) => code == codes.ebadf,
        None => false,
    }
}

} // verus!
