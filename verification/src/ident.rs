//! Identifiers: 128 random bits, rendered as text.

use vstd::prelude::*;

verus! {

/// A decimal digit or one of the letters `a` to `f`.
pub open spec fn is_lower_hex(c: char) -> bool {
    ('0' <= c && c <= '9') || ('a' <= c && c <= 'f')
}

/// The shape of a generated identifier: five groups of 8, 4, 4, 4 and 12
/// lowercase hexadecimal digits with a hyphen between them, where the third
/// group starts with `4` and the fourth with `8`, `9`, `a` or `b`.
pub open spec fn is_generated_id(id: Seq<char>) -> bool {
    &&& id.len() == 36
    &&& forall|i: int|
        0 <= i < 36 ==> if i == 8 || i == 13 || i == 18 || i == 23 {
            id[i] == '-'
        } else {
            is_lower_hex(#[trigger] id[i])
        }
    &&& id[14] == '4'
    &&& (id[19] == '8' || id[19] == '9' || id[19] == 'a' || id[19] == 'b')
}

/// Calls uuid's `Uuid::new_v4()` and renders the value with its `Display`.
///
/// Trusted: whatever bits were drawn, the text has the hyphenated lowercase
/// form of a version 4 identifier. Nothing is claimed of which identifier
/// comes out, nor that it differs from any other. Like `new_v4` itself, this
/// panics where the operating system hands out no random bytes.
#[verifier::external_body]
pub(crate) fn fresh_id() -> (r: String)
    ensures
        is_generated_id(r@),
{
    uuid::Uuid::new_v4().to_string()
}

} // verus!
