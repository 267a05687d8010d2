//! Random job and worker identifiers.

use vstd::prelude::*;

verus! {

/// Whether `c` is a lower-case hexadecimal digit.
pub open spec fn is_lower_hex(c: char) -> bool {
    ('0' <= c && c <= '9') || ('a' <= c && c <= 'f')
}

/// Whether `s` is the lower-case hyphenated text of a random (version 4,
/// RFC 4122 variant) UUID: 36 characters in groups of 8-4-4-4-12 hex
/// digits separated by `-`, the version digit `4` at index 14 and one of
/// `8`, `9`, `a`, `b` at index 19.
pub open spec fn is_hyphenated_v4(s: Seq<char>) -> bool {
    &&& s.len() == 36
    &&& forall|i: int|
        0 <= i < 36 ==> (if i == 8 || i == 13 || i == 18 || i == 23 {
            s[i] == '-'
        } else {
            is_lower_hex(#[trigger] s[i])
        })
    &&& s[14] == '4'
    &&& (s[19] == '8' || s[19] == '9' || s[19] == 'a' || s[19] == 'b')
}

/// Calls `uuid::Uuid::new_v4()` and writes it with `to_hyphenated()`.
/// The bytes are random (from `getrandom`); what the crate's source fixes
/// is the layout of the text: lower-case hex in 8-4-4-4-12 groups, version
/// nibble 4 and variant bits `10`. Nothing is claimed about the random
/// digits; `new_v4` panics if the operating system gives no random bytes,
/// which no argument can rule out.
#[verifier::external_body]
fn random_uuid_text() -> (s: String)
    ensures
        is_hyphenated_v4(s@),
{
    ::uuid::Uuid::new_v4().to_hyphenated().to_string()
}

/// A fresh random identifier, in the hyphenated form of a version-4 UUID.
pub fn generate_uuid() -> (id: String)
    ensures
        is_hyphenated_v4(id@),
{
    random_uuid_text()
}

} // verus!
