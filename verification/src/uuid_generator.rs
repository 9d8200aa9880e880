use vstd::prelude::*;

verus! {

/// A lowercase hexadecimal digit.
pub open spec fn is_lower_hex_digit(c: char) -> bool {
    ('0' <= c && c <= '9') || ('a' <= c && c <= 'f')
}

/// The canonical hyphenated text of a version-4 identifier: 36 characters,
/// hyphens at positions 8, 13, 18 and 23, lowercase hexadecimal digits
/// everywhere else, the version nibble `4` at position 14, and one of the
/// four variant nibbles at position 19.
pub open spec fn canonical_uuid_text(s: Seq<char>) -> bool {
    &&& s.len() == 36
    &&& s[8] == '-' && s[13] == '-' && s[18] == '-' && s[23] == '-'
    &&& forall|i: int|
        0 <= i < 36 && i != 8 && i != 13 && i != 18 && i != 23 ==> is_lower_hex_digit(#[trigger] s[i])
    &&& s[14] == '4'
    &&& (s[19] == '8' || s[19] == '9' || s[19] == 'a' || s[19] == 'b')
}

/// Supplies collision-resistant opaque identifiers fit for a stable
/// external user key, pluggable behind the creation workflow.
pub trait UuidGenerator {
    fn generate(&self) -> Result<String, String>;
}

/// The default implementation: a randomly generated 128-bit identifier in
/// its canonical textual form.
pub struct UuidV4Generator;

/// Relies on uuid::Uuid::new_v4 and its Display form: a fresh random
/// version-4 identifier -- the version and variant bits are masked in
/// before rendering -- written as the lowercase hyphenated 36-character
/// text. The value is random, so only that shape is stated.
#[verifier::external_body]
fn new_v4_string() -> (r: String)
    ensures
        canonical_uuid_text(r@),
{
    uuid::Uuid::new_v4().to_string()
}

impl UuidGenerator for UuidV4Generator {
    /// Never fails: always a fresh identifier in canonical hyphenated form.
    fn generate(&self) -> (r: Result<String, String>)
        ensures
            r is Ok,
            r matches Ok(s) ==> canonical_uuid_text(s@),
    {
        Ok(new_v4_string())
    }
}

} // verus!
