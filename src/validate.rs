//! UTF-8 validation of untrusted bytes.
use vstd::prelude::*;
use vstd::string::*;
use vstd::utf8::*;

verus! {

/// `n` is the length of the longest prefix of `b` that is valid UTF-8.
pub open spec fn longest_valid_prefix(b: Seq<u8>, n: int) -> bool {
    &&& 0 <= n <= b.len()
    &&& valid_utf8(b.subrange(0, n))
    &&& forall|j: int| n < j <= b.len() ==> !valid_utf8(#[trigger] b.subrange(0, j))
}

/// Relies on `std::str::from_utf8`: the text when all of `v` is valid UTF-8;
/// otherwise the error's `valid_up_to`, the largest index up to which `v` is
/// valid UTF-8.
#[verifier::external_body]
pub(crate) fn check_utf8(v: &[u8]) -> (r: Result<&str, usize>)
    ensures
        r is Ok <==> valid_utf8(v@),
        r matches Ok(s) ==> s.spec_bytes() == v@,
        r matches Err(n) ==> longest_valid_prefix(v@, n as int),
{
    match std::str::from_utf8(v) {
        Ok(s) => Ok(s),
        Err(e) => Err(e.valid_up_to()),
    }
}

} // verus!
