//! The instance name under which a servient is advertised: the first word of
//! the title, lower-cased, followed by a fresh unique token.

use vstd::prelude::*;

verus! {

/// Unicode's `White_Space` property.
pub open spec fn is_white_space(c: char) -> bool {
    let u = c as u32;
    ||| 0x9 <= u <= 0xd
    ||| u == 0x20
    ||| u == 0x85
    ||| u == 0xa0
    ||| u == 0x1680
    ||| 0x2000 <= u <= 0x200a
    ||| u == 0x2028
    ||| u == 0x2029
    ||| u == 0x202f
    ||| u == 0x205f
    ||| u == 0x3000
}

/// Whether `c` is white space, as `char::is_whitespace` decides it.
pub fn is_whitespace(c: char) -> (r: bool)
    ensures
        r == is_white_space(c),
{
    let u = c as u32;
    (0x9 <= u && u <= 0xd) || u == 0x20 || u == 0x85 || u == 0xa0 || u == 0x1680 || (0x2000 <= u
        && u <= 0x200a) || u == 0x2028 || u == 0x2029 || u == 0x202f || u == 0x205f || u == 0x3000
}

/// The first index at or after `i` whose character is not white space, or
/// the length of `s` if there is none.
pub open spec fn word_start(s: Seq<char>, i: int) -> int
    decreases s.len() - i,
{
    if i < 0 || i >= s.len() || !is_white_space(s[i]) {
        i
    } else {
        word_start(s, i + 1)
    }
}

/// The first index at or after `i` whose character is white space, or the
/// length of `s` if there is none.
pub open spec fn word_end(s: Seq<char>, i: int) -> int
    decreases s.len() - i,
{
    if i < 0 || i >= s.len() || is_white_space(s[i]) {
        i
    } else {
        word_end(s, i + 1)
    }
}

/// The first white-space-delimited word of `s`; empty when `s` holds nothing
/// but white space.
pub open spec fn first_word(s: Seq<char>) -> Seq<char> {
    s.subrange(word_start(s, 0), word_end(s, word_start(s, 0)))
}

proof fn lemma_word_start_bounds(s: Seq<char>, i: int)
    requires
        0 <= i <= s.len(),
    ensures
        i <= word_start(s, i) <= s.len(),
        word_start(s, i) < s.len() ==> !is_white_space(s[word_start(s, i)]),
        forall|k: int| i <= k < word_start(s, i) ==> is_white_space(#[trigger] s[k]),
    decreases s.len() - i,
{
    if i < s.len() && is_white_space(s[i]) {
        lemma_word_start_bounds(s, i + 1);
    }
}

/// The first word of a title that holds only white space is empty.
pub proof fn lemma_blank_has_no_word(s: Seq<char>)
    requires
        forall|k: int| 0 <= k < s.len() ==> is_white_space(#[trigger] s[k]),
    ensures
        first_word(s).len() == 0,
{
    lemma_word_start_bounds(s, 0);
    assert(word_start(s, 0) == s.len());
    assert(word_end(s, s.len() as int) == s.len());
}

/// The first white-space-delimited word of `s`.
pub fn first_word_of(s: &str) -> (r: &str)
    ensures
        r@ == first_word(s@),
{
    let n = s.unicode_len();
    let mut i: usize = 0;
    while i < n && is_whitespace(s.get_char(i))
        invariant
            0 <= i <= n,
            n == s@.len(),
            word_start(s@, i as int) == word_start(s@, 0),
        decreases n - i,
    {
        i = i + 1;
    }
    let mut j: usize = i;
    while j < n && !is_whitespace(s.get_char(j))
        invariant
            i <= j <= n,
            n == s@.len(),
            word_end(s@, j as int) == word_end(s@, i as int),
        decreases n - j,
    {
        j = j + 1;
    }
    s.substring_char(i, j)
}

/// What `str::to_lowercase` returns on `s`.
pub uninterp spec fn lower_of(s: Seq<char>) -> Seq<char>;

/// Relies on `str::to_lowercase`: the lower-case mapping of each character of
/// `s`, which depends on `s` alone and leaves an empty string empty.
#[verifier::external_body]
fn lowercase(s: &str) -> (r: String)
    ensures
        r@ == lower_of(s@),
        s@.len() == 0 ==> r@.len() == 0,
{
    s.to_lowercase()
}

/// An ASCII hexadecimal digit in lower case.
pub open spec fn is_lower_hex(c: char) -> bool {
    ('0' <= c && c <= '9') || ('a' <= c && c <= 'f')
}

/// Relies on `uuid::Uuid::new_v4` and the `Display` of `Uuid::as_simple`: a
/// random version 4 UUID written as 32 lower-case hexadecimal digits.
#[verifier::external_body]
pub(crate) fn fresh_token() -> (r: String)
    ensures
        r@.len() == 32,
        forall|i: int| 0 <= i < r@.len() ==> is_lower_hex(#[trigger] r@[i]),
{
    uuid::Uuid::new_v4().as_simple().to_string()
}

/// The instance name of a Thing titled `title`, given the unique token
/// `token`: the first word of the title in lower case, then the token.
pub fn instance_name(title: &str, token: &str) -> (r: String)
    ensures
        r@ == lower_of(first_word(title@)) + token@,
        (forall|k: int| 0 <= k < title@.len() ==> is_white_space(#[trigger] title@[k])) ==> r@
            == token@,
{
    let word = first_word_of(title);
    let lower = lowercase(word);
    proof {
        if forall|k: int| 0 <= k < title@.len() ==> is_white_space(#[trigger] title@[k]) {
            lemma_blank_has_no_word(title@);
            assert(lower@ + token@ == token@);
        }
    }
    lower.concat(token)
}

} // verus!
