//! The request correlator: a fresh, opaque token for every outbound call.

use vstd::prelude::*;

verus! {

/// Whether a character is a digit or one of the letters `a` to `f`.
pub open spec fn is_lower_hex(c: char) -> bool {
    ('0' as u32 <= c as u32 <= '9' as u32) || ('a' as u32 <= c as u32 <= 'f' as u32)
}

/// The shape of a request identifier: thirty-six characters, hyphens after
/// the eighth, twelfth, sixteenth and twentieth digit, every other character
/// a lower-case hexadecimal digit, the thirteenth digit a `4`, and the
/// seventeenth one of `8`, `9`, `a` and `b`.
pub open spec fn is_request_id(id: Seq<char>) -> bool {
    &&& id.len() == 36
    &&& forall|i: int|
        0 <= i < 36 ==> if i == 8 || i == 13 || i == 18 || i == 23 {
            #[trigger] id[i] == '-'
        } else {
            is_lower_hex(id[i])
        }
    &&& id[14] == '4'
    &&& (id[19] == '8' || id[19] == '9' || id[19] == 'a' || id[19] == 'b')
}

/// `uuid::Uuid::new_v4`, rendered by the identifier's `Display`.
///
/// The identifier is drawn at random, so nothing is said of which one comes
/// back: only that it is a version 4 identifier of the standard variant, in
/// the hyphenated lower-case form. That two calls give different identifiers
/// is a matter of chance and is not claimed. The call does not return where
/// the operating system has no random bytes to give.
#[verifier::external_body]
pub(crate) fn generate_request_id() -> (id: String)
    ensures
        is_request_id(id@),
{
    uuid::Uuid::new_v4().to_string()
}

} // verus!
