//! `Chars`: text whose bytes live in a shared buffer and are valid UTF-8.
use vstd::prelude::*;
use vstd::string::*;
use vstd::utf8::*;

use crate::buffer::{
    buffer_clone, buffer_cmp, buffer_contents, buffer_eq, buffer_from_string, buffer_is_empty,
    buffer_len, buffer_slice, copied_buffer, empty_buffer, lex_cmp, static_buffer,
};
use crate::validate::{check_utf8, longest_valid_prefix};

verus! {

broadcast use {group_utf8_lib, group_string_axioms};

/// The error of [`Chars::from_bytes`]: the bytes are not valid UTF-8.
#[derive(Clone, Copy, Debug, PartialEq, Eq, Structural)]
pub struct Utf8Error {
    /// Length of the longest prefix of the input that is valid UTF-8, which is
    /// also the offset of the first invalid sequence.
    pub valid_up_to: usize,
}

/// Thin wrapper around a shared byte buffer whose bytes are always valid UTF-8.
/// It reads like a `String`; it orders and hashes by its bytes.
#[derive(Hash, Ord)]
pub struct Chars {
    buf: bytes::Bytes,
}

impl View for Chars {
    type V = Seq<u8>;

    /// The bytes of the text.
    closed spec fn view(&self) -> Seq<u8> {
        buffer_contents(self.buf)
    }
}

impl Chars {
    /// The bytes always form valid UTF-8.
    #[verifier::type_invariant]
    spec fn inv(self) -> bool {
        valid_utf8(buffer_contents(self.buf))
    }

    /// The characters of the text.
    pub open spec fn text(&self) -> Seq<char> {
        decode_utf8(self@)
    }

    /// New empty text.
    pub fn new() -> (r: Chars)
        ensures
            r@ == Seq::<u8>::empty(),
    {
        Chars { buf: empty_buffer() }
    }

    /// Clear the text: its handle is replaced by one over no bytes, which
    /// leaves any clone that shared the old buffer as it was.
    pub fn clear(&mut self)
        ensures
            final(self)@ == Seq::<u8>::empty(),
    {
        self.buf = empty_buffer();
    }

    /// Try to take `bytes` as text: succeeds, without copying, exactly when
    /// they are valid UTF-8; otherwise the error gives the offset of the first
    /// invalid sequence.
    pub fn from_bytes(bytes: bytes::Bytes) -> (r: Result<Chars, Utf8Error>)
        ensures
            r is Ok <==> valid_utf8(buffer_contents(bytes)),
            r matches Ok(c) ==> c@ == buffer_contents(bytes),
            r matches Err(e) ==> longest_valid_prefix(buffer_contents(bytes), e.valid_up_to as int),
    {
        let checked = check_utf8(buffer_slice(&bytes));
        match checked {
            Ok(_) => Ok(Chars { buf: bytes }),
            Err(n) => Err(Utf8Error { valid_up_to: n }),
        }
    }

    /// Text over the bytes of a static string, without copying.
    pub fn from_static(s: &'static str) -> (r: Chars)
        ensures
            r@ == s.spec_bytes(),
            r.text() == s@,
    {
        Chars { buf: static_buffer(s.as_bytes()) }
    }

    /// Length in bytes.
    pub fn len(&self) -> (r: usize)
        ensures
            r as int == self@.len(),
    {
        buffer_len(&self.buf)
    }

    /// Whether the text holds no byte.
    pub fn is_empty(&self) -> (r: bool)
        ensures
            r == (self@.len() == 0),
    {
        buffer_is_empty(&self.buf)
    }

    /// The underlying buffer. Once unwrapped, nothing keeps its bytes tied to
    /// the UTF-8 guarantee: wrap them again only through [`Chars::from_bytes`].
    pub fn into_bytes(self) -> (r: bytes::Bytes)
        ensures
            buffer_contents(r) == self@,
            valid_utf8(buffer_contents(r)),
    {
        proof {
            use_type_invariant(&self);
        }
        self.buf
    }

    /// The text as `Display` renders it: the characters themselves.
    pub fn to_string(&self) -> (r: String)
        ensures
            r@ == self.text(),
    {
        self.as_str().to_string()
    }

    /// The text as `Debug` renders it: quoted and escaped, exactly as the
    /// same `str` renders.
    pub fn to_debug_string(&self) -> (r: String)
        ensures
            r@ == debug_text(self.text()),
    {
        str_debug(self.as_str())
    }

    /// The text as a string slice over the buffer's bytes.
    pub fn as_str(&self) -> (r: &str)
        ensures
            r.spec_bytes() == self@,
            r@ == self.text(),
    {
        proof {
            use_type_invariant(self);
        }
        // The bytes are valid UTF-8 by the type invariant, so the check succeeds.
        match check_utf8(buffer_slice(&self.buf)) {
            Ok(s) => s,
            Err(_) => {
                assert(false);
                ""
            },
        }
    }
}

impl<'a> From<&'a str> for Chars {
    /// Text over a copy of the bytes of `src`, which need no check: a `str` is
    /// valid UTF-8.
    fn from(src: &'a str) -> (r: Chars)
        ensures
            r@ == src.spec_bytes(),
            r.text() == src@,
    {
        Chars { buf: copied_buffer(src.as_bytes()) }
    }
}

impl<'a> vstd::std_specs::convert::FromSpecImpl<&'a str> for Chars {
    /// The result is a fresh handle, which no spec value fixes in advance: the
    /// contract of `from` says what it holds.
    open spec fn obeys_from_spec() -> bool {
        false
    }

    open spec fn from_spec(v: &'a str) -> Chars {
        arbitrary()
    }
}

impl From<String> for Chars {
    /// Text over the bytes of `src`, taken over without a check: a `String`
    /// is valid UTF-8.
    fn from(src: String) -> (r: Chars)
        ensures
            r.text() == src@,
    {
        Chars { buf: buffer_from_string(src) }
    }
}

impl vstd::std_specs::convert::FromSpecImpl<String> for Chars {
    /// The result is a fresh handle, which no spec value fixes in advance: the
    /// contract of `from` says what it holds.
    open spec fn obeys_from_spec() -> bool {
        false
    }

    open spec fn from_spec(v: String) -> Chars {
        arbitrary()
    }
}

impl From<Chars> for String {
    /// An owned copy of the text.
    fn from(src: Chars) -> (r: String)
        ensures
            r@ == src.text(),
    {
        src.as_str().to_owned()
    }
}

impl vstd::std_specs::convert::FromSpecImpl<Chars> for String {
    /// The result is a fresh handle, which no spec value fixes in advance: the
    /// contract of `from` says what it holds.
    open spec fn obeys_from_spec() -> bool {
        false
    }

    open spec fn from_spec(v: Chars) -> String {
        arbitrary()
    }
}

impl Default for Chars {
    fn default() -> (r: Chars)
        ensures
            r@ == Seq::<u8>::empty(),
    {
        Chars::new()
    }
}

impl Clone for Chars {
    /// A second handle over the same buffer.
    fn clone(&self) -> (r: Chars)
        ensures
            r@ == self@,
    {
        proof {
            use_type_invariant(self);
        }
        Chars { buf: buffer_clone(&self.buf) }
    }
}

impl core::ops::Deref for Chars {
    type Target = str;

    fn deref(&self) -> (r: &str)
        ensures
            r.spec_bytes() == self@,
    {
        self.as_str()
    }
}

impl core::borrow::Borrow<str> for Chars {
    fn borrow(&self) -> (r: &str)
        ensures
            str::spec_bytes(r) == self@,
    {
        self.as_str()
    }
}

impl PartialEq for Chars {
    /// Equal exactly when the bytes are equal, whatever buffers hold them.
    fn eq(&self, other: &Chars) -> (r: bool) {
        buffer_eq(&self.buf, &other.buf)
    }
}

impl vstd::std_specs::cmp::PartialEqSpecImpl for Chars {
    open spec fn obeys_eq_spec() -> bool {
        true
    }

    open spec fn eq_spec(&self, other: &Chars) -> bool {
        self@ == other@
    }
}

impl Eq for Chars {
}

impl<'a> PartialEq<&'a str> for Chars {
    /// Equal exactly when the bytes are equal.
    fn eq(&self, other: &&'a str) -> (r: bool) {
        slices_equal(buffer_slice(&self.buf), other.as_bytes())
    }
}

impl<'a> vstd::std_specs::cmp::PartialEqSpecImpl<&'a str> for Chars {
    open spec fn obeys_eq_spec() -> bool {
        true
    }

    open spec fn eq_spec(&self, other: &&'a str) -> bool {
        self@ == other.spec_bytes()
    }
}

impl PartialOrd for Chars {
    /// Lexicographic order of the bytes, which is also the order of the
    /// characters' scalar values.
    fn partial_cmp(&self, other: &Chars) -> (r: Option<core::cmp::Ordering>) {
        Some(buffer_cmp(&self.buf, &other.buf))
    }
}

impl vstd::std_specs::cmp::PartialOrdSpecImpl for Chars {
    open spec fn obeys_partial_cmp_spec() -> bool {
        true
    }

    open spec fn partial_cmp_spec(&self, other: &Chars) -> Option<core::cmp::Ordering> {
        Some(lex_cmp(self@, other@))
    }
}

/// Whether two byte slices hold the same bytes.
fn slices_equal(a: &[u8], b: &[u8]) -> (r: bool)
    ensures
        r == (a@ == b@),
{
    if a.len() != b.len() {
        return false;
    }
    let mut i: usize = 0;
    while i < a.len()
        invariant
            a@.len() == b@.len(),
            0 <= i <= a@.len(),
            forall|k: int| 0 <= k < i ==> a@[k] == b@[k],
        decreases a@.len() - i,
    {
        if a[i] != b[i] {
            return false;
        }
        i = i + 1;
    }
    assert(a@ =~= b@);
    true
}

/// How `Debug` renders a `str` with these characters.
pub uninterp spec fn debug_text(s: Seq<char>) -> Seq<char>;

/// Relies on `Debug for str`: the quoted, escaped rendering, which depends on
/// the characters alone.
#[verifier::external_body]
fn str_debug(s: &str) -> (r: String)
    ensures
        r@ == debug_text(s@),
{
    format!("{:?}", s)
}

} // verus!
