//! The shared byte buffer of the `bytes` crate, as the text type sees it:
//! an opaque handle whose contents are a sequence of bytes.
use vstd::prelude::*;
use vstd::utf8::encode_utf8;

verus! {

#[verifier::external_type_specification]
#[verifier::external_body]
pub struct ExBytes(bytes::Bytes);

/// The bytes that a buffer handle holds.
pub uninterp spec fn buffer_contents(b: bytes::Bytes) -> Seq<u8>;

/// Relies on `Bytes::new`: a handle over no bytes, without allocation.
#[verifier::external_body]
pub(crate) fn empty_buffer() -> (r: bytes::Bytes)
    ensures
        buffer_contents(r) == Seq::<u8>::empty(),
{
    bytes::Bytes::new()
}

/// Relies on `Bytes::from_static`: a handle over the given static bytes, no copy.
#[verifier::external_body]
pub(crate) fn static_buffer(data: &'static [u8]) -> (r: bytes::Bytes)
    ensures
        buffer_contents(r) == data@,
{
    bytes::Bytes::from_static(data)
}

/// Relies on `Bytes::copy_from_slice`: a new handle over a copy of the given bytes.
#[verifier::external_body]
pub(crate) fn copied_buffer(data: &[u8]) -> (r: bytes::Bytes)
    ensures
        buffer_contents(r) == data@,
{
    bytes::Bytes::copy_from_slice(data)
}

/// Relies on `From<String> for Bytes`: takes over the string's UTF-8 bytes.
#[verifier::external_body]
pub(crate) fn buffer_from_string(s: String) -> (r: bytes::Bytes)
    ensures
        buffer_contents(r) == encode_utf8(s@),
{
    bytes::Bytes::from(s)
}

/// Relies on `Bytes::len`: the number of bytes held.
#[verifier::external_body]
pub(crate) fn buffer_len(b: &bytes::Bytes) -> (r: usize)
    ensures
        r as int == buffer_contents(*b).len(),
{
    b.len()
}

/// Relies on `Bytes::is_empty`: whether no byte is held.
#[verifier::external_body]
pub(crate) fn buffer_is_empty(b: &bytes::Bytes) -> (r: bool)
    ensures
        r == (buffer_contents(*b).len() == 0),
{
    b.is_empty()
}

/// Relies on `Clone for Bytes`: a second handle over the same bytes.
#[verifier::external_body]
pub(crate) fn buffer_clone(b: &bytes::Bytes) -> (r: bytes::Bytes)
    ensures
        buffer_contents(r) == buffer_contents(*b),
{
    b.clone()
}

/// Relies on `AsRef<[u8]> for Bytes`: the held bytes as a slice.
#[verifier::external_body]
pub(crate) fn buffer_slice(b: &bytes::Bytes) -> (r: &[u8])
    ensures
        r@ == buffer_contents(*b),
{
    b.as_ref()
}

/// Relies on `PartialEq for Bytes`: equal exactly when the held bytes are equal.
#[verifier::external_body]
pub(crate) fn buffer_eq(a: &bytes::Bytes, b: &bytes::Bytes) -> (r: bool)
    ensures
        r == (buffer_contents(*a) == buffer_contents(*b)),
{
    a == b
}

/// Lexicographic order of byte sequences: the first differing byte decides,
/// and a proper prefix comes first.
pub open spec fn lex_cmp(a: Seq<u8>, b: Seq<u8>) -> core::cmp::Ordering
    decreases a.len(),
{
    if a.len() == 0 {
        if b.len() == 0 {
            core::cmp::Ordering::Equal
        } else {
            core::cmp::Ordering::Less
        }
    } else if b.len() == 0 {
        core::cmp::Ordering::Greater
    } else if a[0] < b[0] {
        core::cmp::Ordering::Less
    } else if a[0] > b[0] {
        core::cmp::Ordering::Greater
    } else {
        lex_cmp(a.drop_first(), b.drop_first())
    }
}

/// Relies on `Ord for Bytes`: the held bytes compared as slices, which std
/// orders lexicographically.
#[verifier::external_body]
pub(crate) fn buffer_cmp(a: &bytes::Bytes, b: &bytes::Bytes) -> (r: core::cmp::Ordering)
    ensures
        r == lex_cmp(buffer_contents(*a), buffer_contents(*b)),
{
    a.cmp(b)
}

} // verus!
