//! Decoding of received bytes as UTF-8 text.

use vstd::prelude::*;

verus! {

/// The text that a byte sequence decodes to under UTF-8, or `None` when the
/// bytes are not valid UTF-8. The full decoding relation is not written out
/// here; this name stands for what `String::from_utf8` computes, which
/// depends on the bytes alone.
pub uninterp spec fn utf8_of(bytes: Seq<u8>) -> Option<Seq<char>>;

/// Relies on `String::from_utf8`: returns the UTF-8 decoding of `bytes`, or
/// `None` when `bytes` is not valid UTF-8. The returned string holds exactly
/// the input bytes, so a nonempty valid input decodes to nonempty text; an
/// empty input and any all-ASCII input are valid UTF-8 and decode byte for
/// byte. All of this `String::from_utf8`'s documentation plainly gives.
#[verifier::external_body]
pub(crate) fn decode_utf8(bytes: Vec<u8>) -> (r: Option<String>)
    ensures
        r is Some <==> utf8_of(bytes@) is Some,
        r is Some ==> r->0@ == utf8_of(bytes@)->0,
        bytes@.len() == 0 ==> r is Some && r->0@ =~= Seq::<char>::empty(),
        bytes@.len() > 0 && r is Some ==> r->0@.len() > 0,
        (forall|i: int| 0 <= i < bytes@.len() ==> bytes@[i] < 128) ==> r is Some
            && r->0@.len() == bytes@.len()
            && (forall|i: int| 0 <= i < bytes@.len() ==> r->0@[i] == bytes@[i] as char),
{
    match String::from_utf8(bytes) {
        Ok(s) => Some(s),
        Err(_) => None,
    }
}

} // verus!
