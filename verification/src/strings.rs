//! Pure text utilities: capitalisation, reversal, word counting, and a
//! deliberately coarse email-shape check.

use vstd::prelude::*;
use vstd::string::{StrSliceExecFns, StringExecFns};

verus! {

/// Relies on String::push: appends the given character at the end of the
/// string and changes nothing else.
pub assume_specification[ String::push ](s: &mut String, ch: char)
    ensures
        final (s)@ == old(s)@.push(ch),
;

/// The Unicode uppercase mapping of one character, as `char::to_uppercase`
/// yields it.
pub uninterp spec fn upper_of(c: char) -> Seq<char>;

/// Relies on char::to_uppercase: the locale-insensitive Unicode uppercase
/// mapping of the character, one or more characters determined by the
/// character alone.
#[verifier::external_body]
fn to_upper_chars(c: char) -> (r: String)
    ensures
        r@ == upper_of(c),
        r@.len() >= 1,
{
    c.to_uppercase().collect()
}

/// Holds exactly of the characters with the Unicode `White_Space` property.
pub open spec fn is_space(c: char) -> bool {
    let u = c as u32;
    u == 0x20 || (0x09 <= u && u <= 0x0D) || u == 0x85 || u == 0xA0 || u == 0x1680 || (0x2000 <= u
        && u <= 0x200A) || u == 0x2028 || u == 0x2029 || u == 0x202F || u == 0x205F || u == 0x3000
}

/// Decides `is_space`.
fn is_space_char(c: char) -> (r: bool)
    ensures
        r == is_space(c),
{
    let u: u32 = c as u32;
    u == 0x20 || (0x09 <= u && u <= 0x0D) || u == 0x85 || u == 0xA0 || u == 0x1680 || (0x2000 <= u
        && u <= 0x200A) || u == 0x2028 || u == 0x2029 || u == 0x202F || u == 0x205F || u == 0x3000
}

/// The number of maximal non-whitespace runs in `s` from position `i` on,
/// given whether position `i` is preceded by whitespace (or the start).
pub open spec fn count_words_from(s: Seq<char>, i: int, after_space: bool) -> nat
    decreases s.len() - i,
{
    if i < 0 || i >= s.len() {
        0
    } else {
        (if !is_space(s[i]) && after_space {
            1nat
        } else {
            0nat
        }) + count_words_from(s, i + 1, is_space(s[i]))
    }
}

/// The number of maximal non-whitespace runs in `s`: each run starts at a
/// non-whitespace character that is at the start or preceded by whitespace.
pub open spec fn spec_word_count(s: Seq<char>) -> nat {
    count_words_from(s, 0, true)
}

/// Returns a copy of `s` with its first character mapped to uppercase and the
/// remainder unchanged; the empty string stays empty.
pub fn capitalize(s: &str) -> (r: String)
    ensures
        s@.len() == 0 ==> r@ == Seq::<char>::empty(),
        s@.len() > 0 ==> r@ == upper_of(s@[0]) + s@.subrange(1, s@.len() as int),
{
    let n = s.unicode_len();
    if n == 0 {
        String::new()
    } else {
        let first = s.get_char(0);
        let rest = s.substring_char(1, n);
        let up = to_upper_chars(first);
        up.concat(rest)
    }
}

/// Returns `s` with its sequence of characters reversed.
pub fn reverse(s: &str) -> (r: String)
    ensures
        r@ == s@.reverse(),
{
    let n = s.unicode_len();
    let mut r = String::new();
    let mut i: usize = 0;
    while i < n
        invariant
            n == s@.len(),
            i <= n,
            r@.len() == i,
            forall|j: int| 0 <= j < i ==> r@[j] == s@[n - 1 - j],
        decreases n - i,
    {
        let c = s.get_char(n - 1 - i);
        r.push(c);
        i = i + 1;
    }
    proof {
        assert(r@ =~= s@.reverse());
    }
    r
}

/// Returns the count of maximal non-whitespace runs in `s`: consecutive
/// separators collapse and leading or trailing whitespace yields no run.
pub fn word_count(s: &str) -> (count: usize)
    ensures
        count as nat == spec_word_count(s@),
{
    let n = s.unicode_len();
    let mut count: usize = 0;
    let mut i: usize = 0;
    let mut after_space: bool = true;
    while i < n
        invariant
            n == s@.len(),
            i <= n,
            count <= i,
            count as nat + count_words_from(s@, i as int, after_space) == spec_word_count(s@),
        decreases n - i,
    {
        let c = s.get_char(i);
        if !is_space_char(c) && after_space {
            count = count + 1;
        }
        after_space = is_space_char(c);
        i = i + 1;
    }
    count
}

/// Returns true iff `s` contains at least one `@` and at least one `.`,
/// anywhere and in any order: a deliberately weak syntactic check, not an
/// email grammar.
pub fn validate_email(email: &str) -> (r: bool)
    ensures
        r == (email@.contains('@') && email@.contains('.')),
{
    let n = email.unicode_len();
    let mut has_at: bool = false;
    let mut has_dot: bool = false;
    let mut i: usize = 0;
    while i < n
        invariant
            n == email@.len(),
            i <= n,
            has_at == exists|j: int| 0 <= j < i && email@[j] == '@',
            has_dot == exists|j: int| 0 <= j < i && email@[j] == '.',
        decreases n - i,
    {
        let c = email.get_char(i);
        if c == '@' {
            has_at = true;
        }
        if c == '.' {
            has_dot = true;
        }
        i = i + 1;
    }
    has_at && has_dot
}

} // verus!
