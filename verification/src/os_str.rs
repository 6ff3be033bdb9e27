//! Platform strings: the owned and the borrowed form of the byte sequences
//! in which the platform gives file names and the values of its environment.
//! They need not be valid text. Every operation keeps the bytes as they are;
//! only the conversion that is called lossy may put others in their place.

use crate::native::{
    arc_from_slice, rc_from_slice, str_from_utf8, string_from_utf8, string_from_utf8_lossy,
    string_into_bytes, vec_capacity, vec_into_boxed_slice, vec_reserve_exact,
    vec_shrink_to_fit,
};
use std::borrow::Cow;
use std::rc::Rc;
use std::sync::Arc;
use vstd::prelude::*;
use vstd::slice::slice_to_vec;
use vstd::utf8::{
    decode_utf8, encode_utf8, encode_utf8_decode_utf8, encode_utf8_valid_utf8, valid_utf8,
};

verus! {

/// An owned platform string.
#[derive(Clone, Debug, Hash)]
pub struct Buf {
    pub inner: Vec<u8>,
}

/// A borrowed platform string.
#[derive(Clone, Copy, Debug, Hash)]
pub struct Slice<'a> {
    pub inner: &'a [u8],
}

impl View for Buf {
    type V = Seq<u8>;

    open spec fn view(&self) -> Seq<u8> {
        self.inner@
    }
}

impl<'a> View for Slice<'a> {
    type V = Seq<u8>;

    open spec fn view(&self) -> Seq<u8> {
        self.inner@
    }
}

/// The text that the lossy conversion makes of a sequence of bytes: the text
/// the bytes encode, with a replacement character in place of each sequence
/// that encodes none.
pub uninterp spec fn utf8_lossy(bytes: Seq<u8>) -> Seq<char>;

/// What converting bytes into text gives: the text they encode where they
/// are valid UTF-8, and else the bytes themselves.
pub open spec fn spec_into_string(bytes: Seq<u8>) -> Result<Seq<char>, Seq<u8>> {
    if valid_utf8(bytes) {
        Ok(decode_utf8(bytes))
    } else {
        Err(bytes)
    }
}

impl Buf {
    /// The bytes of this string.
    pub fn into_inner(self) -> (bytes: Vec<u8>)
        ensures
            bytes@ == self@,
    {
        self.inner
    }

    /// The bytes of this string.
    pub fn as_inner(&self) -> (bytes: &[u8])
        ensures
            bytes@ == self@,
    {
        self.inner.as_slice()
    }

    /// The platform string that holds the text `s`, which is always one: its
    /// bytes are the UTF-8 encoding of the text.
    pub fn from_string(s: String) -> (buf: Buf)
        ensures
            buf@ == encode_utf8(s@),
    {
        Buf { inner: string_into_bytes(s) }
    }

    /// An empty string with room for `capacity` bytes.
    pub fn with_capacity(capacity: usize) -> (buf: Buf)
        requires
            capacity <= isize::MAX,
        ensures
            buf@ == Seq::<u8>::empty(),
    {
        Buf { inner: Vec::with_capacity(capacity) }
    }

    pub fn clear(&mut self)
        ensures
            final(self)@ == Seq::<u8>::empty(),
    {
        self.inner.clear()
    }

    /// The number of bytes this string has room for, which is never less
    /// than the number it holds.
    pub fn capacity(&self) -> (capacity: usize)
        ensures
            capacity >= self@.len(),
    {
        vec_capacity(&self.inner)
    }

    /// Makes room for `additional` more bytes; the bytes stay as they are.
    pub fn reserve(&mut self, additional: usize)
        requires
            old(self)@.len() + additional <= isize::MAX,
        ensures
            final(self)@ == old(self)@,
    {
        self.inner.reserve(additional)
    }

    /// Makes room for `additional` more bytes and no more than needed; the
    /// bytes stay as they are.
    pub fn reserve_exact(&mut self, additional: usize)
        requires
            old(self)@.len() + additional <= isize::MAX,
        ensures
            final(self)@ == old(self)@,
    {
        vec_reserve_exact(&mut self.inner, additional)
    }

    /// Gives up the room that is not used; the bytes stay as they are.
    pub fn shrink_to_fit(&mut self)
        ensures
            final(self)@ == old(self)@,
    {
        vec_shrink_to_fit(&mut self.inner)
    }

    pub fn as_slice(&self) -> (s: Slice<'_>)
        ensures
            s@ == self@,
    {
        Slice { inner: self.inner.as_slice() }
    }

    /// Converts this string into text. Bytes that are valid UTF-8 become the
    /// text they encode. Any others are no text: the conversion fails and
    /// hands back a string with the very bytes it was given.
    pub fn into_string(self) -> (r: Result<String, Buf>)
        ensures
            match r {
                Ok(text) => spec_into_string(self@) == Ok::<Seq<char>, Seq<u8>>(text@),
                Err(buf) => spec_into_string(self@) == Err::<Seq<char>, Seq<u8>>(buf@),
            },
    {
        match string_from_utf8(self.inner) {
            Ok(text) => Ok(text),
            Err(bytes) => Err(Buf { inner: bytes }),
        }
    }

    /// Appends the bytes of `s`.
    pub fn push_slice(&mut self, s: &Slice)
        requires
            old(self)@.len() + s@.len() <= isize::MAX,
        ensures
            final(self)@ == old(self)@ + s@,
    {
        self.inner.extend_from_slice(s.inner);
        assert(self.inner@ =~= old(self).inner@ + s.inner@);
    }

    pub fn into_box(self) -> (boxed: Box<[u8]>)
        ensures
            boxed@ == self@,
    {
        vec_into_boxed_slice(self.inner)
    }

    pub fn from_box(boxed: Box<[u8]>) -> (buf: Buf)
        ensures
            buf@ == boxed@,
    {
        Buf { inner: boxed.into_vec() }
    }

    /// A copy of the bytes behind a handle that threads may share.
    pub fn into_arc(&self) -> (shared: Arc<[u8]>)
        ensures
            shared@ == self@,
    {
        self.as_slice().into_arc()
    }

    /// A copy of the bytes behind a handle shared within one thread.
    pub fn into_rc(&self) -> (shared: Rc<[u8]>)
        ensures
            shared@ == self@,
    {
        self.as_slice().into_rc()
    }
}

impl<'a> Slice<'a> {
    /// The platform string over the bytes `s`, taken as they are.
    pub fn from_u8_slice(s: &'a [u8]) -> (slice: Slice<'a>)
        ensures
            slice@ == s@,
    {
        Slice { inner: s }
    }

    /// The platform string over the text `s`: its bytes are the UTF-8
    /// encoding of the text.
    pub fn from_str(s: &'a str) -> (slice: Slice<'a>)
        ensures
            slice@ == encode_utf8(s@),
    {
        Slice::from_u8_slice(s.as_bytes())
    }

    /// This string as text, where its bytes are valid UTF-8, and `None`
    /// where they are not.
    pub fn to_str(&self) -> (r: Option<&'a str>)
        ensures
            match r {
                Some(text) => spec_into_string(self@) == Ok::<Seq<char>, Seq<u8>>(text@),
                None => spec_into_string(self@) is Err,
            },
    {
        str_from_utf8(self.inner)
    }

    /// This string as text, whatever its bytes: each sequence that is no
    /// valid UTF-8 is replaced. Bytes that are valid UTF-8 give the text
    /// they encode.
    pub fn to_string_lossy(&self) -> (text: Cow<'a, str>)
        ensures
            text@ == utf8_lossy(self@),
            valid_utf8(self@) ==> text@ == decode_utf8(self@),
    {
        string_from_utf8_lossy(self.inner)
    }

    pub fn to_owned(&self) -> (buf: Buf)
        ensures
            buf@ == self@,
    {
        Buf { inner: slice_to_vec(self.inner) }
    }

    pub fn is_empty(&self) -> (r: bool)
        ensures
            r == (self@.len() == 0),
    {
        self.inner.len() == 0
    }

    pub fn len(&self) -> (n: usize)
        ensures
            n == self@.len(),
    {
        self.inner.len()
    }

    pub fn as_bytes(&self) -> (bytes: &'a [u8])
        ensures
            bytes@ == self@,
    {
        self.inner
    }

    pub fn into_box(&self) -> (boxed: Box<[u8]>)
        ensures
            boxed@ == self@,
    {
        vec_into_boxed_slice(slice_to_vec(self.inner))
    }

    pub fn empty_box() -> (boxed: Box<[u8]>)
        ensures
            boxed@ == Seq::<u8>::empty(),
    {
        vec_into_boxed_slice(Vec::new())
    }

    /// A copy of the bytes behind a handle that threads may share.
    pub fn into_arc(&self) -> (shared: Arc<[u8]>)
        ensures
            shared@ == self@,
    {
        arc_from_slice(self.inner)
    }

    /// A copy of the bytes behind a handle shared within one thread.
    pub fn into_rc(&self) -> (shared: Rc<[u8]>)
        ensures
            shared@ == self@,
    {
        rc_from_slice(self.inner)
    }

    /// The platform string over the bytes `b`, which need not be valid text.
    pub fn from_bytes(b: &'a [u8]) -> (slice: Slice<'a>)
        ensures
            slice@ == b@,
    {
        Slice::from_u8_slice(b)
    }
}

/// Text that is made a platform string and converted back is the text it
/// was: the bytes of any text are valid, and they decode to that text.
pub proof fn law_text_round_trip(text: Seq<char>)
    ensures
        spec_into_string(encode_utf8(text)) == Ok::<Seq<char>, Seq<u8>>(text),
{
    encode_utf8_valid_utf8(text);
    encode_utf8_decode_utf8(text);
}

/// Bytes that are no valid text do not convert, and the failure holds them
/// as they were.
pub proof fn law_invalid_bytes_kept(bytes: Seq<u8>)
    requires
        !valid_utf8(bytes),
    ensures
        spec_into_string(bytes) == Err::<Seq<char>, Seq<u8>>(bytes),
{
}

} // verus!
