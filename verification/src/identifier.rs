use crate::text::chars_of;
use uuid::Uuid;
use vstd::prelude::*;

verus! {

/// A lower-case hexadecimal digit.
pub open spec fn is_lower_hex(c: char) -> bool {
    ('0' <= c && c <= '9') || ('a' <= c && c <= 'f')
}

/// Where the hyphens of an identifier stand.
pub open spec fn is_hyphen_place(i: int) -> bool {
    i == 8 || i == 13 || i == 18 || i == 23
}

/// The digit that marks the variant of an identifier.
pub open spec fn is_variant_digit(c: char) -> bool {
    c == '8' || c == '9' || c == 'a' || c == 'b'
}

/// The shape of every generated identifier: 36 characters, hyphens at
/// four fixed places and lower-case hexadecimal digits everywhere else, of
/// which the one at place 14 is the version, 4, and the one at place 19
/// marks the variant.
pub open spec fn is_identifier(s: Seq<char>) -> bool {
    &&& s.len() == 36
    &&& forall|i: int|
        0 <= i < 36 ==> if is_hyphen_place(i) {
            #[trigger] s[i] == '-'
        } else {
            is_lower_hex(s[i])
        }
    &&& s[14] == '4'
    &&& is_variant_digit(s[19])
}

/// A generated identifier holds nothing that could end a quoted name it is
/// written into, or start another statement.
pub proof fn lemma_identifier_is_inert(name: Seq<char>)
    requires
        is_identifier(name),
    ensures
        forall|i: int|
            0 <= i < name.len() ==> (#[trigger] name[i]) != '"' && name[i] != ';' && name[i]
                != '\\' && name[i] != '\'' && name[i] != ' ',
{
    assert forall|i: int| 0 <= i < name.len() implies (#[trigger] name[i]) != '"' && name[i]
        != ';' && name[i] != '\\' && name[i] != '\'' && name[i] != ' ' by {
        if is_hyphen_place(i) {
            assert(name[i] == '-');
        } else {
            assert(is_lower_hex(name[i]));
        }
    }
}

/// `uuid::Uuid::new_v4`, written out by the `Display` of `Uuid`: a random
/// identifier of version 4 in its hyphenated lower-case form. Whatever the
/// random bits, the text has the shape of [`is_identifier`].
#[verifier::external_body]
fn random_identifier() -> (name: String)
    ensures
        is_identifier(name@),
{
    Uuid::new_v4().to_string()
}

/// Decides [`is_identifier`].
pub fn has_identifier_shape(name: &str) -> (yes: bool)
    ensures
        yes == is_identifier(name@),
{
    let chars = chars_of(name);
    if chars.len() != 36 {
        return false;
    }
    let mut i: usize = 0;
    while i < 36
        invariant
            i <= 36,
            chars@.len() == 36,
            chars@ == name@,
            forall|j: int|
                0 <= j < i ==> if is_hyphen_place(j) {
                    #[trigger] chars@[j] == '-'
                } else {
                    is_lower_hex(chars@[j])
                },
        decreases 36 - i,
    {
        let c: char = chars[i];
        let hyphen = i == 8 || i == 13 || i == 18 || i == 23;
        let fits = if hyphen {
            c == '-'
        } else {
            ('0' <= c && c <= '9') || ('a' <= c && c <= 'f')
        };
        if !fits {
            assert(!is_identifier(name@)) by {
                if is_identifier(name@) {
                    assert(name@[i as int] == c);
                }
            }
            return false;
        }
        i += 1;
    }
    let variant: char = chars[19];
    chars[14] == '4' && (variant == '8' || variant == '9' || variant == 'a' || variant == 'b')
}

/// A fresh identifier. No two calls are promised to differ; that they do
/// rests on the 122 random bits of each identifier.
pub fn fresh_identifier() -> (name: String)
    ensures
        is_identifier(name@),
{
    random_identifier()
}

} // verus!
