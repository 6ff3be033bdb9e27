//! Portable error kinds and the classification of native error codes.

use crate::native::host_codes;
use crate::Std;
use vstd::prelude::*;

verus! {

/// The portable kinds into which native error codes are sorted.
#[derive(Clone, Copy, Debug, PartialEq, Eq, Hash, Structural)]
pub enum ErrorKind {
    ConnectionRefused,
    ConnectionReset,
    PermissionDenied,
    BrokenPipe,
    NotConnected,
    ConnectionAborted,
    AddrNotAvailable,
    AddrInUse,
    NotFound,
    Interrupted,
    InvalidInput,
    TimedOut,
    AlreadyExists,
    WouldBlock,
    Other,
}

/// The numbers that a platform gives to the error conditions this layer
/// tells apart. The numbers differ between platforms, and `eagain` and
/// `ewouldblock` may be one number or two.
#[derive(Clone, Copy, Debug)]
pub struct NativeCodes {
    pub econnrefused: i32,
    pub econnreset: i32,
    pub eperm: i32,
    pub eacces: i32,
    pub epipe: i32,
    pub enotconn: i32,
    pub econnaborted: i32,
    pub eaddrnotavail: i32,
    pub eaddrinuse: i32,
    pub enoent: i32,
    pub eintr: i32,
    pub einval: i32,
    pub etimedout: i32,
    pub eexist: i32,
    pub eagain: i32,
    pub ewouldblock: i32,
    pub ebadf: i32,
}

/// Whether `errno` is one of the codes that the platform lists under `kind`.
/// No code is listed under `Other`.
pub open spec fn names(codes: NativeCodes, kind: ErrorKind, errno: i32) -> bool {
    match kind {
        ErrorKind::ConnectionRefused => errno == codes.econnrefused,
        ErrorKind::ConnectionReset => errno == codes.econnreset,
        ErrorKind::PermissionDenied => errno == codes.eperm || errno == codes.eacces,
        ErrorKind::BrokenPipe => errno == codes.epipe,
        ErrorKind::NotConnected => errno == codes.enotconn,
        ErrorKind::ConnectionAborted => errno == codes.econnaborted,
        ErrorKind::AddrNotAvailable => errno == codes.eaddrnotavail,
        ErrorKind::AddrInUse => errno == codes.eaddrinuse,
        ErrorKind::NotFound => errno == codes.enoent,
        ErrorKind::Interrupted => errno == codes.eintr,
        ErrorKind::InvalidInput => errno == codes.einval,
        ErrorKind::TimedOut => errno == codes.etimedout,
        ErrorKind::AlreadyExists => errno == codes.eexist,
        ErrorKind::WouldBlock => errno == codes.eagain || errno == codes.ewouldblock,
        ErrorKind::Other => false,
    }
}

/// The kind of a native error code: the first kind, in the order of
/// `ErrorKind`, under which the platform lists the code, and `Other` when it
/// lists the code under none.
pub open spec fn spec_classify(codes: NativeCodes, errno: i32) -> ErrorKind {
    if names(codes, ErrorKind::ConnectionRefused, errno) {
        ErrorKind::ConnectionRefused
    } else if names(codes, ErrorKind::ConnectionReset, errno) {
        ErrorKind::ConnectionReset
    } else if names(codes, ErrorKind::PermissionDenied, errno) {
        ErrorKind::PermissionDenied
    } else if names(codes, ErrorKind::BrokenPipe, errno) {
        ErrorKind::BrokenPipe
    } else if names(codes, ErrorKind::NotConnected, errno) {
        ErrorKind::NotConnected
    } else if names(codes, ErrorKind::ConnectionAborted, errno) {
        ErrorKind::ConnectionAborted
    } else if names(codes, ErrorKind::AddrNotAvailable, errno) {
        ErrorKind::AddrNotAvailable
    } else if names(codes, ErrorKind::AddrInUse, errno) {
        ErrorKind::AddrInUse
    } else if names(codes, ErrorKind::NotFound, errno) {
        ErrorKind::NotFound
    } else if names(codes, ErrorKind::Interrupted, errno) {
        ErrorKind::Interrupted
    } else if names(codes, ErrorKind::InvalidInput, errno) {
        ErrorKind::InvalidInput
    } else if names(codes, ErrorKind::TimedOut, errno) {
        ErrorKind::TimedOut
    } else if names(codes, ErrorKind::AlreadyExists, errno) {
        ErrorKind::AlreadyExists
    } else if names(codes, ErrorKind::WouldBlock, errno) {
        ErrorKind::WouldBlock
    } else {
        ErrorKind::Other
    }
}

impl NativeCodes {
    /// The table of the platform this crate was built for. Whatever the
    /// platform, zero and minus one are none of its numbers, no number stands
    /// for two kinds, and the number of a bad descriptor has no kind.
    pub fn host() -> (codes: NativeCodes)
        ensures
            codes.spares_sentinels(),
            codes.distinct(),
            codes.ebadf_apart(),
    {
        host_codes()
    }

    /// Whether `errno` is one of the numbers in this table.
    pub open spec fn holds(self, errno: i32) -> bool {
        ||| errno == self.econnrefused
        ||| errno == self.econnreset
        ||| errno == self.eperm
        ||| errno == self.eacces
        ||| errno == self.epipe
        ||| errno == self.enotconn
        ||| errno == self.econnaborted
        ||| errno == self.eaddrnotavail
        ||| errno == self.eaddrinuse
        ||| errno == self.enoent
        ||| errno == self.eintr
        ||| errno == self.einval
        ||| errno == self.etimedout
        ||| errno == self.eexist
        ||| errno == self.eagain
        ||| errno == self.ewouldblock
        ||| errno == self.ebadf
    }

    /// Zero, which says that nothing failed, and minus one, by which a native
    /// call says that it failed, are the number of no error condition.
    pub open spec fn spares_sentinels(self) -> bool {
        !self.holds(0i32) && !self.holds(-1i32)
    }

    /// The number of a bad descriptor is listed under no kind.
    pub open spec fn ebadf_apart(self) -> bool {
        forall|kind: ErrorKind| !#[trigger] names(self, kind, self.ebadf)
    }

    /// No code stands for two kinds: a number listed under one kind is listed
    /// under no other. The two codes of one kind may still be one number.
    pub open spec fn distinct(self) -> bool {
        forall|errno: i32, a: ErrorKind, b: ErrorKind|
            #[trigger] names(self, a, errno) && #[trigger] names(self, b, errno) ==> a == b
    }

    /// Tests at run time that no code stands for two kinds.
    pub fn is_distinct(&self) -> (r: bool)
        ensures
            r == self.distinct(),
    {
        let r = classify(self, self.econnrefused) == ErrorKind::ConnectionRefused
            && classify(self, self.econnreset) == ErrorKind::ConnectionReset
            && classify(self, self.eperm) == ErrorKind::PermissionDenied
            && classify(self, self.eacces) == ErrorKind::PermissionDenied
            && classify(self, self.epipe) == ErrorKind::BrokenPipe
            && classify(self, self.enotconn) == ErrorKind::NotConnected
            && classify(self, self.econnaborted) == ErrorKind::ConnectionAborted
            && classify(self, self.eaddrnotavail) == ErrorKind::AddrNotAvailable
            && classify(self, self.eaddrinuse) == ErrorKind::AddrInUse
            && classify(self, self.enoent) == ErrorKind::NotFound
            && classify(self, self.eintr) == ErrorKind::Interrupted
            && classify(self, self.einval) == ErrorKind::InvalidInput
            && classify(self, self.etimedout) == ErrorKind::TimedOut
            && classify(self, self.eexist) == ErrorKind::AlreadyExists
            && classify(self, self.eagain) == ErrorKind::WouldBlock
            && classify(self, self.ewouldblock) == ErrorKind::WouldBlock;
        proof {
            let c = *self;
            if r {
                assert forall|errno: i32, a: ErrorKind, b: ErrorKind|
                    #[trigger] names(c, a, errno) && #[trigger] names(c, b, errno) implies a
                    == b by {
                    assert(spec_classify(c, errno) == a);
                    assert(spec_classify(c, errno) == b);
                }
            } else {
                if c.distinct() {
                    lemma_listed_code(c, ErrorKind::ConnectionRefused, c.econnrefused);
                    lemma_listed_code(c, ErrorKind::ConnectionReset, c.econnreset);
                    lemma_listed_code(c, ErrorKind::PermissionDenied, c.eperm);
                    lemma_listed_code(c, ErrorKind::PermissionDenied, c.eacces);
                    lemma_listed_code(c, ErrorKind::BrokenPipe, c.epipe);
                    lemma_listed_code(c, ErrorKind::NotConnected, c.enotconn);
                    lemma_listed_code(c, ErrorKind::ConnectionAborted, c.econnaborted);
                    lemma_listed_code(c, ErrorKind::AddrNotAvailable, c.eaddrnotavail);
                    lemma_listed_code(c, ErrorKind::AddrInUse, c.eaddrinuse);
                    lemma_listed_code(c, ErrorKind::NotFound, c.enoent);
                    lemma_listed_code(c, ErrorKind::Interrupted, c.eintr);
                    lemma_listed_code(c, ErrorKind::InvalidInput, c.einval);
                    lemma_listed_code(c, ErrorKind::TimedOut, c.etimedout);
                    lemma_listed_code(c, ErrorKind::AlreadyExists, c.eexist);
                    lemma_listed_code(c, ErrorKind::WouldBlock, c.eagain);
                    lemma_listed_code(c, ErrorKind::WouldBlock, c.ewouldblock);
                }
            }
        }
        r
    }
}

/// Maps a native error code to its portable kind. Total and free of side
/// effects; the same table and code always give the same kind.
pub fn classify(codes: &NativeCodes, errno: i32) -> (kind: ErrorKind)
    ensures
        kind == spec_classify(*codes, errno),
{
    if errno == codes.econnrefused {
        ErrorKind::ConnectionRefused
    } else if errno == codes.econnreset {
        ErrorKind::ConnectionReset
    } else if errno == codes.eperm || errno == codes.eacces {
        ErrorKind::PermissionDenied
    } else if errno == codes.epipe {
        ErrorKind::BrokenPipe
    } else if errno == codes.enotconn {
        ErrorKind::NotConnected
    } else if errno == codes.econnaborted {
        ErrorKind::ConnectionAborted
    } else if errno == codes.eaddrnotavail {
        ErrorKind::AddrNotAvailable
    } else if errno == codes.eaddrinuse {
        ErrorKind::AddrInUse
    } else if errno == codes.enoent {
        ErrorKind::NotFound
    } else if errno == codes.eintr {
        ErrorKind::Interrupted
    } else if errno == codes.einval {
        ErrorKind::InvalidInput
    } else if errno == codes.etimedout {
        ErrorKind::TimedOut
    } else if errno == codes.eexist {
        ErrorKind::AlreadyExists
    } else if errno == codes.eagain || errno == codes.ewouldblock {
        ErrorKind::WouldBlock
    } else {
        ErrorKind::Other
    }
}

/// Where no code stands for two kinds, a code listed under a kind is
/// classified as that kind.
pub proof fn lemma_listed_code(codes: NativeCodes, kind: ErrorKind, errno: i32)
    requires
        codes.distinct(),
        names(codes, kind, errno),
    ensures
        spec_classify(codes, errno) == kind,
{
    let found = spec_classify(codes, errno);
    assert(found != ErrorKind::Other);
    assert(names(codes, found, errno));
}

/// Under a table that spares zero and minus one, both are classified as
/// `Other`: no failure is read into the code that says nothing failed, nor
/// into the value by which a call reports failure.
pub proof fn law_sentinels_are_other(codes: NativeCodes)
    requires
        codes.spares_sentinels(),
    ensures
        spec_classify(codes, 0i32) == ErrorKind::Other,
        spec_classify(codes, -1i32) == ErrorKind::Other,
{
}

/// Classification by kind: where no code stands for two kinds, a code is
/// classified as a kind other than `Other` exactly when the platform lists it
/// under that kind, and as `Other` exactly when it is listed under none.
pub proof fn law_classify(codes: NativeCodes, errno: i32)
    requires
        codes.distinct(),
    ensures
        forall|kind: ErrorKind|
            kind != ErrorKind::Other ==> (spec_classify(codes, errno) == kind <==> #[trigger] names(
                codes,
                kind,
                errno,
            )),
        spec_classify(codes, errno) == ErrorKind::Other <==> forall|kind: ErrorKind|
            !#[trigger] names(codes, kind, errno),
{
    assert forall|kind: ErrorKind| kind != ErrorKind::Other implies (spec_classify(codes, errno)
        == kind <==> #[trigger] names(codes, kind, errno)) by {
        if names(codes, kind, errno) {
            lemma_listed_code(codes, kind, errno);
        }
    }
    let found = spec_classify(codes, errno);
    if found != ErrorKind::Other {
        assert(names(codes, found, errno));
    }
}

/// A failure reported by a native call: the native code, and the portable
/// kind it was classified as.
#[derive(Clone, Copy, Debug, PartialEq, Eq, Structural)]
pub struct Error {
    pub code: i32,
    pub kind: ErrorKind,
}

impl Error {
    /// The error that stands for the native code `code` on a platform with
    /// the table `codes`.
    pub fn from_raw_os_error(code: i32, codes: &NativeCodes) -> (e: Error)
        ensures
            e.code == code,
            e.kind == spec_classify(*codes, code),
    {
        Error { code, kind: classify(codes, code) }
    }

    /// The error for the calling thread's last native error code, with the
    /// kind that `codes` gives it. The code is read from the thread and may
    /// be any number.
    pub fn last_os_error(codes: &NativeCodes) -> (e: Error)
        ensures
            e.kind == spec_classify(*codes, e.code),
    {
        let code = Std::last_os_error();
        Error::from_raw_os_error(code, codes)
    }

    /// The native code this error was built from.
    pub fn raw_os_error(&self) -> (code: Option<i32>)
        ensures
            code == Some(self.code),
    {
        Some(self.code)
    }

    /// The portable kind of this error.
    pub fn kind(&self) -> (kind: ErrorKind)
        ensures
            kind == self.kind,
    {
        self.kind
    }
}

} // verus!
