//! Properties that relate several operations of [`Chars`].
use vstd::prelude::*;
use vstd::std_specs::cmp::PartialEqSpec;
use vstd::string::*;
use vstd::utf8::*;

use crate::buffer::buffer_contents;
use crate::chars::{debug_text, Chars, Utf8Error};
use crate::validate::longest_valid_prefix;

verus! {

broadcast use {group_utf8_lib, group_string_axioms};

/// Valid UTF-8 is always accepted, and the text borrowed from the result is
/// exactly those bytes read as UTF-8.
pub proof fn lemma_valid_bytes_accepted(
    b: bytes::Bytes,
    r: Result<Chars, Utf8Error>,
    c: Chars,
    s: &str,
)
    requires
        valid_utf8(buffer_contents(b)),
        call_ensures(Chars::from_bytes, (b,), r),
    ensures
        r is Ok,
        r == Ok::<Chars, Utf8Error>(c) && call_ensures(Chars::as_str, (&c,), s) ==> {
            &&& s.spec_bytes() == buffer_contents(b)
            &&& s@ == decode_utf8(buffer_contents(b))
        },
{
}

/// Bytes that are not valid UTF-8 are refused, and the error's offset is that
/// of the first invalid sequence: the longest valid prefix ends there.
pub proof fn lemma_invalid_bytes_refused(b: bytes::Bytes, r: Result<Chars, Utf8Error>)
    requires
        !valid_utf8(buffer_contents(b)),
        call_ensures(Chars::from_bytes, (b,), r),
    ensures
        r is Err,
        r matches Err(e) ==> {
            &&& longest_valid_prefix(buffer_contents(b), e.valid_up_to as int)
            &&& (e.valid_up_to as int) < buffer_contents(b).len()
        },
{
    if let Err(e) = r {
        let v = buffer_contents(b);
        if e.valid_up_to as int == v.len() {
            assert(v.subrange(0, v.len() as int) =~= v);
        }
    }
}

/// A `String` turned into `Chars` and back is the same text.
pub proof fn lemma_string_round_trip(s: String, c: Chars, t: String)
    requires
        call_ensures(<Chars as From<String>>::from, (s,), c),
        call_ensures(<String as From<Chars>>::from, (c,), t),
    ensures
        t@ == s@,
{
}

/// A `str` copied into `Chars` and back into a `String` is the same text.
pub proof fn lemma_str_round_trip(s: &str, c: Chars, t: String)
    requires
        call_ensures(<Chars as From<&str>>::from, (s,), c),
        call_ensures(<String as From<Chars>>::from, (c,), t),
    ensures
        t@ == s@,
{
}

/// `Chars` made from a `str` renders as that `str` does: the same characters
/// for `Display`, the same quoted form for `Debug`.
pub proof fn lemma_renders_as_str(s: &str, c: Chars, shown: String, debugged: String)
    requires
        call_ensures(<Chars as From<&str>>::from, (s,), c),
    ensures
        call_ensures(Chars::to_string, (&c,), shown) ==> shown@ == s@,
        call_ensures(Chars::to_debug_string, (&c,), debugged) ==> debugged@ == debug_text(s@),
{
}

/// Two `Chars` over separately allocated buffers with the same bytes are equal.
pub proof fn lemma_equal_by_content(x: bytes::Bytes, y: bytes::Bytes, a: Chars, b: Chars)
    requires
        buffer_contents(x) == buffer_contents(y),
        call_ensures(Chars::from_bytes, (x,), Ok::<Chars, Utf8Error>(a)),
        call_ensures(Chars::from_bytes, (y,), Ok::<Chars, Utf8Error>(b)),
    ensures
        a.eq_spec(&b),
{
}

/// A clone shares the buffer and equals the original.
pub proof fn lemma_clone_equal(a: Chars, b: Chars)
    requires
        call_ensures(<Chars as Clone>::clone, (&a,), b),
    ensures
        a.eq_spec(&b),
        b.eq_spec(&a),
{
}

} // verus!
