//! Text encoding of binary image data.

use base64::Engine;
use vstd::prelude::*;

verus! {

/// The base64 text of a byte string in the standard alphabet with padding,
/// as the `base64` crate's `STANDARD` engine encodes it.
pub uninterp spec fn base64_standard(bytes: Seq<u8>) -> Seq<char>;

/// Whether a byte string of length `len` can be encoded: the length of the
/// text, four characters for every three bytes begun, must fit a `usize`.
pub open spec fn encodable(len: nat) -> bool {
    (len / 3) * 4 + 4 <= usize::MAX
}

/// `Engine::encode` of `base64::engine::general_purpose::STANDARD` returns
/// the base64 text of the bytes; it depends on the bytes alone. It panics
/// when the length of the text overflows, which `requires` leaves out.
#[verifier::external_body]
pub(crate) fn encode_base64(bytes: &[u8]) -> (text: String)
    requires
        encodable(bytes@.len()),
    ensures
        text@ == base64_standard(bytes@),
{
    base64::engine::general_purpose::STANDARD.encode(bytes)
}

} // verus!
