//! Identifiers of media: random UUIDs in their hyphenated text form.

use vstd::prelude::*;

verus! {

/// Whether `c` is a lower-case hexadecimal digit.
pub open spec fn is_lower_hex(c: char) -> bool {
    ('0' <= c <= '9') || ('a' <= c <= 'f')
}

/// Whether `s` has the shape of a hyphenated UUID: 36 characters, hyphens at
/// positions 8, 13, 18 and 23, lower-case hexadecimal digits elsewhere.
pub open spec fn is_hyphenated_id(s: Seq<char>) -> bool {
    &&& s.len() == 36
    &&& forall|i: int|
        #![trigger s[i]]
        0 <= i < 36 ==> if i == 8 || i == 13 || i == 18 || i == 23 {
            s[i] == '-'
        } else {
            is_lower_hex(s[i])
        }
}

/// A fresh random identifier: `Uuid::new_v4` of the `uuid` crate, written
/// with its `Display` impl. Trusted: the text has the hyphenated lower-case
/// shape. Nothing is claimed of which identifier comes out.
#[verifier::external_body]
pub(crate) fn random_id() -> (id: String)
    ensures
        is_hyphenated_id(id@),
{
    uuid::Uuid::new_v4().to_string()
}

} // verus!
