//! The places where this crate reads what only the platform knows. Nothing
//! here is proved: each contract is taken on trust.

use crate::io::NativeCodes;
use crate::os_str::utf8_lossy;
use std::borrow::Cow;
use std::rc::Rc;
use std::sync::Arc;
use vstd::prelude::*;
use vstd::utf8::{decode_utf8, encode_utf8, valid_utf8};

verus! {


/// Reads the error numbers of the platform this crate was built for from the
/// constants of the `libc` crate (`libc::ECONNREFUSED` and the others, one per
/// field). The numbers differ between platforms, so none of them is claimed.
/// What `libc` shows of every platform is this: each of these constants is a
/// number other than zero and minus one; no number stands for conditions of
/// two kinds; and the number of a bad descriptor is the number of no
/// condition that has a kind.
#[verifier::external_body]
pub(crate) fn host_codes() -> (codes: NativeCodes)
    ensures
        codes.spares_sentinels(),
        codes.distinct(),
        codes.ebadf_apart(),
{
    NativeCodes {
        econnrefused: libc::ECONNREFUSED, econnreset: libc::ECONNRESET,
        eperm: libc::EPERM, eacces: libc::EACCES,
        epipe: libc::EPIPE, enotconn: libc::ENOTCONN,
        econnaborted: libc::ECONNABORTED, eaddrnotavail: libc::EADDRNOTAVAIL,
        eaddrinuse: libc::EADDRINUSE, enoent: libc::ENOENT,
        eintr: libc::EINTR, einval: libc::EINVAL,
        etimedout: libc::ETIMEDOUT, eexist: libc::EEXIST,
        eagain: libc::EAGAIN, ewouldblock: libc::EWOULDBLOCK,
        ebadf: libc::EBADF,
    }
}

/// Reads the calling thread's last native error code with
/// `std::io::Error::last_os_error`, and takes the code out of the error with
/// `raw_os_error`. The code is whatever the last failing native call on this
/// thread left behind, so nothing is claimed of it.
#[verifier::external_body]
pub(crate) fn last_error_code() -> (code: Option<i32>) {
    std::io::Error::last_os_error().raw_os_error()
}

/// `libc::STDIN_FILENO`, the descriptor of standard input, which is 0.
#[verifier::external_body]
pub(crate) fn stdin_fileno() -> (fd: i32)
    ensures
        fd == 0,
{
    libc::STDIN_FILENO
}

/// `libc::STDOUT_FILENO`, the descriptor of standard output, which is 1.
#[verifier::external_body]
pub(crate) fn stdout_fileno() -> (fd: i32)
    ensures
        fd == 1,
{
    libc::STDOUT_FILENO
}

/// `libc::STDERR_FILENO`, the descriptor of standard error, which is 2.
#[verifier::external_body]
pub(crate) fn stderr_fileno() -> (fd: i32)
    ensures
        fd == 2,
{
    libc::STDERR_FILENO
}

/// `String::into_bytes`: the bytes of a string are its UTF-8 encoding.
#[verifier::external_body]
pub(crate) fn string_into_bytes(s: String) -> (bytes: Vec<u8>)
    ensures
        bytes@ == encode_utf8(s@),
{
    s.into_bytes()
}

/// `String::from_utf8`: bytes that are valid UTF-8 become the string they
/// encode; any others come back as they were, taken out of the error by
/// `FromUtf8Error::into_bytes`.
#[verifier::external_body]
pub(crate) fn string_from_utf8(bytes: Vec<u8>) -> (r: Result<String, Vec<u8>>)
    ensures
        valid_utf8(bytes@) ==> r is Ok && r->Ok_0@ == decode_utf8(bytes@),
        !valid_utf8(bytes@) ==> r is Err && r->Err_0@ == bytes@,
{
    match String::from_utf8(bytes) {
        Ok(s) => Ok(s),
        Err(e) => Err(e.into_bytes()),
    }
}

/// `core::str::from_utf8`: bytes that are valid UTF-8 are seen as the string
/// they encode; for any others there is none.
#[verifier::external_body]
pub(crate) fn str_from_utf8<'a>(bytes: &'a [u8]) -> (r: Option<&'a str>)
    ensures
        valid_utf8(bytes@) ==> r is Some && r->Some_0@ == decode_utf8(bytes@),
        !valid_utf8(bytes@) ==> r is None,
{
    core::str::from_utf8(bytes).ok()
}

/// `String::from_utf8_lossy`: never fails. The result is named, and for
/// bytes that are valid UTF-8 it is the string they encode.
#[verifier::external_body]
pub(crate) fn string_from_utf8_lossy<'a>(bytes: &'a [u8]) -> (r: Cow<'a, str>)
    ensures
        r@ == utf8_lossy(bytes@),
        valid_utf8(bytes@) ==> r@ == decode_utf8(bytes@),
{
    String::from_utf8_lossy(bytes)
}

/// `Vec::capacity`: room for at least as many bytes as the vector holds.
#[verifier::external_body]
pub(crate) fn vec_capacity(v: &Vec<u8>) -> (capacity: usize)
    ensures
        capacity >= v@.len(),
{
    v.capacity()
}

/// `Vec::reserve_exact`: leaves the contents as they are. It panics where
/// the new capacity would exceed `isize::MAX` bytes.
#[verifier::external_body]
pub(crate) fn vec_reserve_exact(v: &mut Vec<u8>, additional: usize)
    requires
        old(v)@.len() + additional <= isize::MAX,
    ensures
        final(v)@ == old(v)@,
{
    v.reserve_exact(additional)
}

/// `Vec::shrink_to_fit`: leaves the contents as they are.
#[verifier::external_body]
pub(crate) fn vec_shrink_to_fit(v: &mut Vec<u8>)
    ensures
        final(v)@ == old(v)@,
{
    v.shrink_to_fit()
}

/// `Vec::into_boxed_slice`: the box holds what the vector held.
#[verifier::external_body]
pub(crate) fn vec_into_boxed_slice(v: Vec<u8>) -> (b: Box<[u8]>)
    ensures
        b@ == v@,
{
    v.into_boxed_slice()
}

/// `Arc::from` on a slice: the shared buffer holds a copy of the slice.
#[verifier::external_body]
pub(crate) fn arc_from_slice(s: &[u8]) -> (a: Arc<[u8]>)
    ensures
        a@ == s@,
{
    Arc::from(s)
}

/// `Rc::from` on a slice: the shared buffer holds a copy of the slice.
#[verifier::external_body]
pub(crate) fn rc_from_slice(s: &[u8]) -> (a: Rc<[u8]>)
    ensures
        a@ == s@,
{
    Rc::from(s)
}

} // verus!
