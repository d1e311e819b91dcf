//! Text normalization: strips the obfuscation characters an attacker can
//! insert between the letters of a banned word so that the rule matcher can
//! re-test the bare text.
//!
//! Three disjoint character classes are removed, in order: whitespace and
//! invisible separator code points, the common emoji blocks, and any
//! remaining character that is not a letter, number, punctuation or
//! separator by its Unicode general category. The first two classes are
//! small explicit sets, specified here directly; the general-category test
//! is delegated to the pattern engine through a trusted wrapper.

use vstd::prelude::*;
use vstd::string::StrSliceExecFns;
use vstd::string::StringExecFns;

verus! {

/// Whitespace and invisible separator code points removed by the first
/// pass: ordinary space, newline and tab, plus the no-break space, the
/// Mongolian vowel separator, zero-width characters, word joiners and the
/// byte-order mark.
pub open spec fn is_separator_char(c: char) -> bool {
    let u = c as u32;
    u == 0x20 || u == 0x0A || u == 0x09 || u == 0xA0 || u == 0x180E || u == 0x200B || u == 0x200C
        || u == 0x200D || u == 0x2060 || u == 0x2062 || u == 0xFEFF
}

/// Pictographic and emoji code points removed by the second pass: the
/// common emoji blocks.
pub open spec fn is_emoji_char(c: char) -> bool {
    let u = c as u32;
    (0x1F600 <= u && u <= 0x1F64F) || (0x1F300 <= u && u <= 0x1F5FF) || (0x1F680 <= u && u
        <= 0x1F6FF) || (0x1F700 <= u && u <= 0x1F77F) || (0x1F780 <= u && u <= 0x1F7FF) || (0x1F800
        <= u && u <= 0x1F8FF) || (0x1F900 <= u && u <= 0x1F9FF) || (0x1FA00 <= u && u <= 0x1FA6F)
        || (0x1FA70 <= u && u <= 0x1FAFF) || (0x1FB00 <= u && u <= 0x1FBFF) || (0x2600 <= u && u
        <= 0x26FF) || (0x2700 <= u && u <= 0x27BF) || (0x2B50 <= u && u <= 0x2B55) || (0x1F1E6 <= u
        && u <= 0x1F1FF) || u == 0x1F004 || u == 0x1F0CF || u == 0x1F18E || (0x1F191 <= u && u
        <= 0x1F19A)
}

/// Whether a character's Unicode general category is Letter, Number,
/// Punctuation or Separator. The category tables are the pattern engine's;
/// this name stands for the result of its single-character class test.
pub uninterp spec fn is_text_char(c: char) -> bool;

/// An ASCII letter or digit.
pub open spec fn is_plain_char(c: char) -> bool {
    let u = c as u32;
    (0x61 <= u && u <= 0x7A) || (0x41 <= u && u <= 0x5A) || (0x30 <= u && u <= 0x39)
}

/// A character survives normalization when it is in none of the removed
/// classes: not a separator, not an emoji, and of a textual general
/// category.
pub open spec fn keep_char(c: char) -> bool {
    !is_separator_char(c) && !is_emoji_char(c) && is_text_char(c)
}

/// The normalized form of a text: the subsequence of its characters that
/// survive all three removal passes, in their original order.
pub open spec fn normalize_spec(s: Seq<char>) -> Seq<char>
    decreases s.len(),
{
    if s.len() == 0 {
        Seq::empty()
    } else {
        let rest = normalize_spec(s.drop_last());
        if keep_char(s.last()) {
            rest.push(s.last())
        } else {
            rest
        }
    }
}

/// Every character in a string is an ASCII letter or digit.
pub open spec fn all_plain(s: Seq<char>) -> bool {
    forall|i: int| 0 <= i < s.len() ==> is_plain_char(#[trigger] s[i])
}

/// Relies on `fancy_regex::Regex::new` and `Regex::is_match`, applied to the
/// one-character string of `c` with the class `[\p{L}\p{N}\p{P}\p{Z}]`:
/// whether a character's general category is Letter, Number, Punctuation or
/// Separator is a function of the character alone, and ASCII letters and
/// digits have the categories Letter and Number.
#[verifier::external_body]
fn classify_text_char(c: char) -> (r: bool)
    ensures
        r == is_text_char(c),
        is_plain_char(c) ==> r,
{
    let mut buf = [0u8; 4];
    match fancy_regex::Regex::new(r"[\p{L}\p{N}\p{P}\p{Z}]") {
        Ok(re) => re.is_match(&*c.encode_utf8(&mut buf)).unwrap_or(false),
        Err(_) => false,
    }
}

fn char_is_separator(c: char) -> (r: bool)
    ensures
        r == is_separator_char(c),
{
    let u = c as u32;
    u == 0x20 || u == 0x0A || u == 0x09 || u == 0xA0 || u == 0x180E || u == 0x200B || u == 0x200C
        || u == 0x200D || u == 0x2060 || u == 0x2062 || u == 0xFEFF
}

fn char_is_emoji(c: char) -> (r: bool)
    ensures
        r == is_emoji_char(c),
{
    let u = c as u32;
    (0x1F600 <= u && u <= 0x1F64F) || (0x1F300 <= u && u <= 0x1F5FF) || (0x1F680 <= u && u
        <= 0x1F6FF) || (0x1F700 <= u && u <= 0x1F77F) || (0x1F780 <= u && u <= 0x1F7FF) || (0x1F800
        <= u && u <= 0x1F8FF) || (0x1F900 <= u && u <= 0x1F9FF) || (0x1FA00 <= u && u <= 0x1FA6F)
        || (0x1FA70 <= u && u <= 0x1FAFF) || (0x1FB00 <= u && u <= 0x1FBFF) || (0x2600 <= u && u
        <= 0x26FF) || (0x2700 <= u && u <= 0x27BF) || (0x2B50 <= u && u <= 0x2B55) || (0x1F1E6 <= u
        && u <= 0x1F1FF) || u == 0x1F004 || u == 0x1F0CF || u == 0x1F18E || (0x1F191 <= u && u
        <= 0x1F19A)
}

/// Normalizes a text by removing separator characters, emoji, and
/// characters outside the textual general categories. Total: never fails,
/// on empty input or input with nothing to remove. A string of ASCII
/// letters and digits comes back unchanged.
pub fn normalize(text: &str) -> (r: String)
    ensures
        r@ == normalize_spec(text@),
        all_plain(text@) ==> r@ == text@,
{
    let n = text.unicode_len();
    let mut out = String::new();
    let mut i: usize = 0;
    while i < n
        invariant
            n == text@.len(),
            i <= n,
            out@ == normalize_spec(text@.subrange(0, i as int)),
            all_plain(text@.subrange(0, i as int)) ==> out@ == text@.subrange(0, i as int),
        decreases n - i,
    {
        let c = text.get_char(i);
        let kept = if char_is_separator(c) {
            false
        } else if char_is_emoji(c) {
            false
        } else {
            classify_text_char(c)
        };
        proof {
            let pre = text@.subrange(0, i as int);
            let post = text@.subrange(0, i as int + 1);
            assert(post.drop_last() =~= pre);
            assert(post.last() == text@[i as int]);
            assert(all_plain(post) ==> is_plain_char(text@[i as int]) && all_plain(pre));
        }
        if kept {
            out.append(text.substring_char(i, i + 1));
            proof {
                assert(out@ =~= normalize_spec(text@.subrange(0, i as int)).push(text@[i as int]));
            }
        }
        i = i + 1;
    }
    proof {
        assert(text@.subrange(0, n as int) =~= text@);
    }
    out
}

/// Every character of a normalized text survives normalization.
proof fn lemma_normalized_chars_kept(s: Seq<char>)
    ensures
        forall|i: int|
            0 <= i < normalize_spec(s).len() ==> keep_char(#[trigger] normalize_spec(s)[i]),
    decreases s.len(),
{
    if s.len() > 0 {
        lemma_normalized_chars_kept(s.drop_last());
        let rest = normalize_spec(s.drop_last());
        if keep_char(s.last()) {
            assert(forall|i: int|
                0 <= i < rest.len() ==> normalize_spec(s)[i] == #[trigger] rest[i]);
            assert(normalize_spec(s)[rest.len() as int] == s.last());
        }
    }
}

/// A text whose characters all survive normalization is already normal.
proof fn lemma_normalize_all_kept(s: Seq<char>)
    requires
        forall|i: int| 0 <= i < s.len() ==> keep_char(#[trigger] s[i]),
    ensures
        normalize_spec(s) == s,
    decreases s.len(),
{
    if s.len() == 0 {
        assert(normalize_spec(s) =~= s);
    } else {
        lemma_normalize_all_kept(s.drop_last());
        assert(normalize_spec(s) =~= s);
    }
}

/// Normalization is idempotent: normalizing an already-normalized text
/// returns it unchanged.
pub proof fn lemma_normalize_idempotent(s: Seq<char>)
    ensures
        normalize_spec(normalize_spec(s)) == normalize_spec(s),
{
    lemma_normalized_chars_kept(s);
    lemma_normalize_all_kept(normalize_spec(s));
}

} // verus!
