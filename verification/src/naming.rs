//! File names that sort by time and do not collide: a prefix, a compact
//! time stamp, a random token and an extension.

use crate::clock::{is_stamp, lemma_compact_stamp_is_name_text, timestamp, StampStyle};
use crate::text::{is_digit, is_name_text, lemma_name_text_concat};
use vstd::prelude::*;
use vstd::string::*;

verus! {

/// A lower-case hexadecimal digit.
pub open spec fn is_hex_digit(c: char) -> bool {
    is_digit(c) || ('a' <= c && c <= 'f')
}

/// The shape of a random token: 36 characters in five groups of 8, 4, 4,
/// 4 and 12 hexadecimal digits with a hyphen between two groups.
pub open spec fn is_token(token: Seq<char>) -> bool {
    &&& token.len() == 36
    &&& forall|i: int|
        0 <= i < 36 ==> if i == 8 || i == 13 || i == 18 || i == 23 {
            #[trigger] token[i] == '-'
        } else {
            is_hex_digit(token[i])
        }
}

/// The file name made of the four parts: the prefix, an underscore, the
/// stamp, an underscore, the token, the extension.
pub open spec fn file_name_of(
    prefix: Seq<char>,
    stamp: Seq<char>,
    token: Seq<char>,
    extension: Seq<char>,
) -> Seq<char> {
    prefix + seq!['_'] + stamp + seq!['_'] + token + extension
}

/// `name` is a name that can be generated for the prefix and the
/// extension: some compact stamp and some token make it up with them.
pub open spec fn is_generated_name(
    name: Seq<char>,
    prefix: Seq<char>,
    extension: Seq<char>,
) -> bool {
    exists|stamp: Seq<char>, token: Seq<char>|
        {
            &&& is_stamp(StampStyle::Compact, stamp)
            &&& is_token(token)
            &&& name == #[trigger] file_name_of(prefix, stamp, token, extension)
        }
}

/// Draws a version 4 identifier with `uuid::Uuid::new_v4` and renders it
/// with the type's `Display`. The contract claims the shape that uuid's
/// hyphenated lower-case format has: 32 hexadecimal digits in groups of
/// 8, 4, 4, 4 and 12 with hyphens between them. Nothing is claimed of
/// the value drawn.
#[verifier::external_body]
fn random_token() -> (token: String)
    ensures
        is_token(token@),
{
    uuid::Uuid::new_v4().to_string()
}

/// Puts the four parts of a file name together.
pub fn compose_file_name(prefix: &str, stamp: &str, token: &str, extension: &str) -> (name: String)
    ensures
        name@ == file_name_of(prefix@, stamp@, token@, extension@),
{
    proof {
        reveal_strlit("_");
    }
    let mut name = String::from_str(prefix);
    name.append("_");
    name.append(stamp);
    name.append("_");
    name.append(token);
    name.append(extension);
    assert("_"@ =~= seq!['_']);
    name
}

/// A fresh file name: `prefix`, the current local time as a compact
/// stamp, a random token, and `extension`. The name begins with the
/// prefix and ends with the extension; if both may stand in a file name,
/// so may the whole.
pub fn generate_unique_filename(prefix: &str, extension: &str) -> (name: String)
    ensures
        is_generated_name(name@, prefix@, extension@),
        prefix@.is_prefix_of(name@),
        extension@.is_suffix_of(name@),
        is_name_text(prefix@) && is_name_text(extension@) ==> is_name_text(name@),
{
    let stamp = timestamp(StampStyle::Compact);
    let token = random_token();
    let name = compose_file_name(prefix, stamp.as_str(), token.as_str(), extension);
    proof {
        law_name_keeps_prefix_and_extension(prefix@, stamp@, token@, extension@);
        if is_name_text(prefix@) && is_name_text(extension@) {
            law_name_is_name_text(prefix@, stamp@, token@, extension@);
        }
    }
    name
}

/// Every generated name begins with its prefix and ends with its
/// extension.
pub proof fn law_name_keeps_prefix_and_extension(
    prefix: Seq<char>,
    stamp: Seq<char>,
    token: Seq<char>,
    extension: Seq<char>,
)
    ensures
        prefix.is_prefix_of(file_name_of(prefix, stamp, token, extension)),
        extension.is_suffix_of(file_name_of(prefix, stamp, token, extension)),
{
    let name = file_name_of(prefix, stamp, token, extension);
    assert(name.subrange(0, prefix.len() as int) =~= prefix);
    assert(name.subrange(name.len() - extension.len(), name.len() as int) =~= extension);
}

/// A name whose prefix and extension may stand in a file name is itself
/// a valid file name: it holds no path separator, no reserved character
/// and no control character.
pub proof fn law_name_is_name_text(
    prefix: Seq<char>,
    stamp: Seq<char>,
    token: Seq<char>,
    extension: Seq<char>,
)
    requires
        is_name_text(prefix),
        is_name_text(extension),
        is_stamp(StampStyle::Compact, stamp),
        is_token(token),
    ensures
        is_name_text(file_name_of(prefix, stamp, token, extension)),
{
    lemma_compact_stamp_is_name_text(stamp);
    assert forall|i: int| 0 <= i < token.len() implies crate::text::is_name_char(
        #[trigger] token[i],
    ) by {
        assert(token[i] == '-' || is_hex_digit(token[i]));
    }
    assert(is_name_text(seq!['_']));
    lemma_name_text_concat(prefix, seq!['_']);
    lemma_name_text_concat(prefix + seq!['_'], stamp);
    lemma_name_text_concat(prefix + seq!['_'] + stamp, seq!['_']);
    lemma_name_text_concat(prefix + seq!['_'] + stamp + seq!['_'], token);
    lemma_name_text_concat(prefix + seq!['_'] + stamp + seq!['_'] + token, extension);
}

/// A name tells its stamp and its token: two names made for the same
/// prefix and extension are equal only if both their stamps and their
/// tokens are. So two names never collide unless the same token was
/// drawn twice and the clock showed the same second.
pub proof fn law_names_differ_with_their_parts(
    prefix: Seq<char>,
    extension: Seq<char>,
    stamp1: Seq<char>,
    token1: Seq<char>,
    stamp2: Seq<char>,
    token2: Seq<char>,
)
    requires
        is_token(token1),
        is_token(token2),
    ensures
        file_name_of(prefix, stamp1, token1, extension) == file_name_of(
            prefix,
            stamp2,
            token2,
            extension,
        ) <==> stamp1 == stamp2 && token1 == token2,
{
    let n1 = file_name_of(prefix, stamp1, token1, extension);
    let n2 = file_name_of(prefix, stamp2, token2, extension);
    if n1 == n2 {
        let end = n1.len() - extension.len();
        let start = prefix.len() as int + 1;
        assert(n1.subrange(end - 36, end) =~= token1);
        assert(n2.subrange(end - 36, end) =~= token2);
        assert(n1.subrange(start, end - 37) =~= stamp1);
        assert(n2.subrange(start, end - 37) =~= stamp2);
    }
}

/// What holds of every generated name: it begins with the prefix, ends
/// with the extension, and is a valid file name if those two are.
pub proof fn law_generated_name(name: Seq<char>, prefix: Seq<char>, extension: Seq<char>)
    requires
        is_generated_name(name, prefix, extension),
    ensures
        prefix.is_prefix_of(name),
        extension.is_suffix_of(name),
        is_name_text(prefix) && is_name_text(extension) ==> is_name_text(name),
{
    let (stamp, token) = choose|stamp: Seq<char>, token: Seq<char>|
        {
            &&& is_stamp(StampStyle::Compact, stamp)
            &&& is_token(token)
            &&& name == #[trigger] file_name_of(prefix, stamp, token, extension)
        };
    law_name_keeps_prefix_and_extension(prefix, stamp, token, extension);
    if is_name_text(prefix) && is_name_text(extension) {
        law_name_is_name_text(prefix, stamp, token, extension);
    }
}

} // verus!
