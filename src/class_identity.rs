//! Process-unique names for window classes.

use vstd::prelude::*;

verus! {

/// A lower-case hexadecimal digit.
pub open spec fn is_lower_hex(c: char) -> bool {
    ('0' <= c && c <= '9') || ('a' <= c && c <= 'f')
}

/// The positions of the dashes in the hyphenated form of a UUID.
pub open spec fn is_dash_position(i: int) -> bool {
    i == 8 || i == 13 || i == 18 || i == 23
}

/// A random (version 4) UUID in lower-case hyphenated form, such as
/// `67e55044-10b1-426f-9247-bb680e5fe0c8`.
pub open spec fn is_class_identity(s: Seq<char>) -> bool {
    &&& s.len() == 36
    &&& forall|i: int|
        0 <= i < 36 ==> if is_dash_position(i) {
            s[i] == '-'
        } else {
            is_lower_hex(#[trigger] s[i])
        }
    &&& s[14] == '4'
    &&& (s[19] == '8' || s[19] == '9' || s[19] == 'a' || s[19] == 'b')
}

/// Relies on uuid's `Uuid::new_v4` rendered by `Hyphenated`'s `Display`: a
/// random UUID whose version nibble is 4 and whose variant bits are `10`,
/// written as 32 lower-case hex digits in groups of 8-4-4-4-12.
#[verifier::external_body]
pub(crate) fn new_class_name() -> (r: String)
    ensures
        is_class_identity(r@),
{
    uuid::Uuid::new_v4().hyphenated().to_string()
}

} // verus!
