//! Binary data as text.

use vstd::prelude::*;
use base64::Engine;

verus! {

/// The standard base64 notation, with padding, of a sequence of bytes.
pub uninterp spec fn base64_text(data: Seq<u8>) -> Seq<char>;

/// The longest input whose base64 notation has a length that `usize` holds.
pub open spec fn max_base64_input() -> nat {
    ((usize::MAX / 4) * 3) as nat
}

/// Writes bytes in base64. Trusted: `Engine::encode` of
/// `base64::engine::general_purpose::STANDARD`, whose result depends on the
/// bytes alone, and which panics where the length of its result overflows.
#[verifier::external_body]
pub(crate) fn base64_encode(data: &[u8]) -> (r: String)
    requires
        data@.len() <= max_base64_input(),
    ensures
        r@ == base64_text(data@),
{
    base64::engine::general_purpose::STANDARD.encode(data)
}

/// Writes bytes in base64; `None` where there are more bytes than
/// [`max_base64_input`].
pub fn to_base64(data: &[u8]) -> (r: Option<String>)
    ensures
        match r {
            Some(s) => data@.len() <= max_base64_input() && s@ == base64_text(data@),
            None => data@.len() > max_base64_input(),
        },
{
    if data.len() <= (usize::MAX / 4) * 3 {
        Some(base64_encode(data))
    } else {
        None
    }
}

} // verus!
