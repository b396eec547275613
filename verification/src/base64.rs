//! Base64 as blueprints travel in it between dashboard and panel.

use rustc_serialize::base64::{FromBase64, FromBase64Error, ToBase64, STANDARD};
use vstd::prelude::*;

verus! {

/// The error of `rustc_serialize`'s base64 decoder, carried through unread.
#[verifier::external_type_specification]
#[verifier::external_body]
pub struct ExFromBase64Error(FromBase64Error);

/// The bytes that `rustc_serialize` decodes a base64 text to; `None` where it
/// refuses the text.
pub uninterp spec fn base64_decoded(text: Seq<char>) -> Option<Seq<u8>>;

/// The text that `rustc_serialize` encodes bytes to with its standard
/// configuration.
pub uninterp spec fn base64_encoded(bytes: Seq<u8>) -> Seq<char>;

/// Calls `FromBase64::from_base64` of `rustc_serialize` on a string. Trusted:
/// the result depends on the text alone, so it has a name; nothing is claimed
/// of which texts decode or to what.
#[verifier::external_body]
pub(crate) fn from_base64(text: &str) -> (r: Result<Vec<u8>, FromBase64Error>)
    ensures
        r is Ok <==> base64_decoded(text@) is Some,
        r is Ok ==> base64_decoded(text@) == Some(r->Ok_0@),
{
    text.from_base64()
}

/// Calls `ToBase64::to_base64` of `rustc_serialize` on bytes, with the
/// configuration `STANDARD`. Trusted: the result depends on the bytes alone,
/// so it has a name; nothing more is claimed of it.
#[verifier::external_body]
pub(crate) fn to_base64(bytes: &[u8]) -> (r: String)
    ensures
        r@ == base64_encoded(bytes@),
{
    bytes.to_base64(STANDARD)
}

} // verus!
