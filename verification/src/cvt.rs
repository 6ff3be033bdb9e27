//! The convention for the results of native calls: a call that returns minus
//! one has failed and left its reason in the thread's last error code, and a
//! call that failed because it was interrupted is made again.

use crate::io::{spec_classify, Error, ErrorKind, NativeCodes};
use crate::Std;
use vstd::prelude::*;

verus! {

/// The integer types in which native calls report their result, and the
/// value by which they report failure.
pub trait IsMinusOne: Sized {
    spec fn spec_is_minus_one(&self) -> bool;

    fn is_minus_one(&self) -> (r: bool)
        ensures
            r == self.spec_is_minus_one(),
    ;
}

impl IsMinusOne for i8 {
    open spec fn spec_is_minus_one(&self) -> bool {
        *self == -1
    }

    fn is_minus_one(&self) -> (r: bool) {
        *self == -1
    }
}

impl IsMinusOne for i16 {
    open spec fn spec_is_minus_one(&self) -> bool {
        *self == -1
    }

    fn is_minus_one(&self) -> (r: bool) {
        *self == -1
    }
}

impl IsMinusOne for i32 {
    open spec fn spec_is_minus_one(&self) -> bool {
        *self == -1
    }

    fn is_minus_one(&self) -> (r: bool) {
        *self == -1
    }
}

impl IsMinusOne for i64 {
    open spec fn spec_is_minus_one(&self) -> bool {
        *self == -1
    }

    fn is_minus_one(&self) -> (r: bool) {
        *self == -1
    }
}

impl IsMinusOne for isize {
    open spec fn spec_is_minus_one(&self) -> bool {
        *self == -1
    }

    fn is_minus_one(&self) -> (r: bool) {
        *self == -1
    }
}

/// What a raw result means, given the error code the thread held when the
/// call returned: minus one is a failure with that code, classified by
/// `codes`; any other value is a success and is handed on unchanged.
pub open spec fn spec_cvt<T: IsMinusOne>(t: T, errno: i32, codes: NativeCodes) -> Result<
    T,
    Error,
> {
    if t.spec_is_minus_one() {
        Err(Error { code: errno, kind: spec_classify(codes, errno) })
    } else {
        Ok(t)
    }
}

/// Converts the raw result `t` of a native call, where `errno` is the error
/// code that the thread held when the call returned.
pub fn cvt_with<T: IsMinusOne>(t: T, errno: i32, codes: &NativeCodes) -> (r: Result<T, Error>)
    ensures
        r == spec_cvt(t, errno, *codes),
{
    if t.is_minus_one() {
        Err(Error::from_raw_os_error(errno, codes))
    } else {
        Ok(t)
    }
}

/// Converts the raw result `t` of the native call that the thread has just
/// made. A value other than minus one is a success and comes back unchanged.
/// Minus one is a failure: the thread's last error code is read, and only
/// then, and the error holds it with the kind that `codes` gives it. The code
/// may be any number; whatever it is, the result is what `spec_cvt` makes of
/// it.
pub fn cvt<T: IsMinusOne>(t: T, codes: &NativeCodes) -> (r: Result<T, Error>)
    ensures
        !t.spec_is_minus_one() ==> r == Ok::<T, Error>(t),
        t.spec_is_minus_one() ==> r is Err && r->Err_0.kind == spec_classify(
            *codes,
            r->Err_0.code,
        ),
        exists|errno: i32| r == #[trigger] spec_cvt(t, errno, *codes),
{
    if t.is_minus_one() {
        let errno = Std::last_os_error();
        let r = cvt_with(t, errno, codes);
        assert(r == spec_cvt(t, errno, *codes));
        r
    } else {
        assert(Ok::<T, Error>(t) == spec_cvt(t, 0i32, *codes));
        Ok(t)
    }
}

/// What follows one attempt of a native call.
#[derive(Debug)]
pub enum Retry<T> {
    /// The call was interrupted: its error is dropped and the call is made
    /// again at once.
    Again,
    /// The call succeeded or failed for good: this is its result.
    Done(Result<T, Error>),
}

pub open spec fn spec_retry_step<T>(attempt: Result<T, Error>) -> Retry<T> {
    match attempt {
        Err(e) if e.kind == ErrorKind::Interrupted => Retry::Again,
        _ => Retry::Done(attempt),
    }
}

/// Decides what follows one attempt: only a failure of the kind
/// `Interrupted` is tried again; a success, and a failure of any other kind,
/// is final and handed on as it is.
pub fn retry_step<T>(attempt: Result<T, Error>) -> (r: Retry<T>)
    ensures
        r == spec_retry_step(attempt),
{
    match attempt {
        Err(e) => {
            if e.kind == ErrorKind::Interrupted {
                Retry::Again
            } else {
                Retry::Done(Err(e))
            }
        },
        Ok(t) => Retry::Done(Ok(t)),
    }
}

/// How a run of attempts ended: how many times the call was made, and the
/// result of the last of them.
#[derive(Debug)]
pub struct Settled<T> {
    pub invocations: usize,
    pub result: Result<T, Error>,
}

/// Whether an attempt, given as the raw result and the error code the thread
/// held after it, was interrupted.
pub open spec fn interrupted<T: IsMinusOne>(attempt: (T, i32), codes: NativeCodes) -> bool {
    spec_retry_step(spec_cvt(attempt.0, attempt.1, codes)) is Again
}

/// The number of attempts at the head of `raw` that were interrupted.
pub open spec fn leading_interrupts<T: IsMinusOne>(raw: Seq<(T, i32)>, codes: NativeCodes) -> nat
    decreases raw.len(),
{
    if raw.len() == 0 || !interrupted(raw[0], codes) {
        0
    } else {
        1 + leading_interrupts(raw.drop_first(), codes)
    }
}

/// The outcome of retrying over the attempts `raw`, taken in order: the first
/// attempt that was not interrupted ends the run and gives its result, and
/// the call was made once for it and once for each attempt before it. Where
/// every attempt was interrupted the run has not ended.
pub open spec fn spec_cvt_r<T: IsMinusOne>(raw: Seq<(T, i32)>, codes: NativeCodes) -> Option<
    Settled<T>,
> {
    let n = leading_interrupts(raw, codes);
    if n < raw.len() {
        Some(
            Settled {
                invocations: (n + 1) as usize,
                result: spec_cvt(raw[n as int].0, raw[n as int].1, codes),
            },
        )
    } else {
        None
    }
}

/// The attempts before the first one that was not interrupted are the
/// leading interrupts.
pub proof fn lemma_leading_interrupts<T: IsMinusOne>(raw: Seq<(T, i32)>, codes: NativeCodes, n: int)
    requires
        0 <= n <= raw.len(),
        forall|j: int| 0 <= j < n ==> interrupted(#[trigger] raw[j], codes),
        n < raw.len() ==> !interrupted(raw[n], codes),
    ensures
        leading_interrupts(raw, codes) == n,
    decreases n,
{
    if n > 0 {
        let rest = raw.drop_first();
        assert(interrupted(raw[0], codes));
        assert forall|j: int| 0 <= j < n - 1 implies interrupted(#[trigger] rest[j], codes) by {
            assert(rest[j] == raw[j + 1]);
        }
        if n - 1 < rest.len() {
            assert(rest[n - 1] == raw[n]);
        }
        lemma_leading_interrupts(rest, codes, n - 1);
    }
}

/// Applies the retry convention to a recorded run of attempts, each given as
/// the raw result of the call and the error code the thread held after it.
/// Interrupted attempts are passed over; the first other attempt ends the run.
pub fn cvt_r_over<T: IsMinusOne + Copy>(raw: &Vec<(T, i32)>, codes: &NativeCodes) -> (r: Option<
    Settled<T>,
>)
    ensures
        r == spec_cvt_r(raw@, *codes),
{
    let mut i: usize = 0;
    while i < raw.len()
        invariant
            i <= raw.len(),
            forall|j: int| 0 <= j < i ==> interrupted(#[trigger] raw@[j], *codes),
        decreases raw.len() - i,
    {
        let attempt = raw[i];
        match retry_step(cvt_with(attempt.0, attempt.1, codes)) {
            Retry::Again => {},
            Retry::Done(result) => {
                proof {
                    lemma_leading_interrupts(raw@, *codes, i as int);
                }
                return Some(Settled { invocations: i + 1, result });
            },
        }
        i = i + 1;
    }
    proof {
        lemma_leading_interrupts(raw@, *codes, i as int);
    }
    None
}

/// A call that is interrupted `n` times and then succeeds with `v` is made
/// `n + 1` times, and the run gives `v`.
pub proof fn law_retry_until_success<T: IsMinusOne>(
    raw: Seq<(T, i32)>,
    codes: NativeCodes,
    n: nat,
    v: T,
)
    requires
        raw.len() == n + 1,
        n + 1 <= usize::MAX,
        forall|j: int| 0 <= j < n ==> interrupted(#[trigger] raw[j], codes),
        raw[n as int].0 == v,
        !v.spec_is_minus_one(),
    ensures
        spec_cvt_r(raw, codes) == Some(Settled { invocations: (n + 1) as usize, result: Ok(v) }),
{
    lemma_leading_interrupts(raw, codes, n as int);
}

/// A call whose first attempt fails with a kind other than `Interrupted` is
/// made once, and the run gives that failure.
pub proof fn law_failure_ends_run<T: IsMinusOne>(raw: Seq<(T, i32)>, codes: NativeCodes)
    requires
        raw.len() >= 1,
        raw[0].0.spec_is_minus_one(),
        spec_classify(codes, raw[0].1) != ErrorKind::Interrupted,
    ensures
        spec_cvt_r(raw, codes) == Some(
            Settled::<T> {
                invocations: 1,
                result: Err(Error { code: raw[0].1, kind: spec_classify(codes, raw[0].1) }),
            },
        ),
{
    lemma_leading_interrupts(raw, codes, 0);
}

} // verus!
