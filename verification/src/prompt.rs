//! Interpretation of an operator's answer to a yes/no question.
//!
//! The interactive front end reads one line of input; this module decides,
//! from the line alone, whether the answer is affirmative.  The line is
//! trimmed of surrounding whitespace; an empty remainder accepts the
//! question's default, and otherwise only the case-insensitive words `y`
//! and `yes` count as affirmative.  Anything else is a refusal.

use vstd::prelude::*;

verus! {

/// Whether a character counts as surrounding whitespace when an
/// operator's answer line is interpreted.
pub open spec fn is_space_char(c: char) -> bool {
    c == ' ' || c == '\t' || c == '\n' || c == '\r'
}

/// The answer line with its leading whitespace removed.
pub open spec fn trim_front(s: Seq<char>) -> Seq<char>
    decreases s.len(),
{
    if s.len() > 0 && is_space_char(s[0]) {
        trim_front(s.drop_first())
    } else {
        s
    }
}

/// The answer line with its trailing whitespace removed.
pub open spec fn trim_back(s: Seq<char>) -> Seq<char>
    decreases s.len(),
{
    if s.len() > 0 && is_space_char(s[s.len() - 1]) {
        trim_back(s.drop_last())
    } else {
        s
    }
}

/// The answer line with whitespace removed from both ends.
pub open spec fn trimmed(s: Seq<char>) -> Seq<char> {
    trim_back(trim_front(s))
}

/// Case-insensitive match against the single letter `y`.
pub open spec fn is_yes_letter(c: char) -> bool {
    c == 'y' || c == 'Y'
}

/// A non-empty trimmed answer is affirmative exactly when it spells
/// `y` or `yes`, in any mixture of upper and lower case.
pub open spec fn affirmative(s: Seq<char>) -> bool {
    ||| (s.len() == 1 && is_yes_letter(s[0]))
    ||| (s.len() == 3 && is_yes_letter(s[0]) && (s[1] == 'e' || s[1] == 'E') && (s[2] == 's'
        || s[2] == 'S'))
}

/// What a raw answer line means: empty (after trimming) accepts the
/// default, and otherwise only an affirmative word means yes.
pub open spec fn answer_means_yes(line: Seq<char>, default_yes: bool) -> bool {
    if trimmed(line).len() == 0 {
        default_yes
    } else {
        affirmative(trimmed(line))
    }
}

/// Removing the leading whitespace keeps exactly the characters from the
/// first non-whitespace position on.
proof fn lemma_trim_front_is_subrange(s: Seq<char>, lo: int)
    requires
        0 <= lo <= s.len(),
        forall|k: int| 0 <= k < lo ==> is_space_char(s[k]),
        lo == s.len() || !is_space_char(s[lo]),
    ensures
        trim_front(s) =~= s.subrange(lo, s.len() as int),
    decreases lo,
{
    if lo == 0 {
    } else {
        assert(is_space_char(s[0]));
        lemma_trim_front_is_subrange(s.drop_first(), lo - 1);
        assert(s.drop_first().subrange(lo - 1, s.drop_first().len() as int) =~= s.subrange(
            lo,
            s.len() as int,
        ));
    }
}

/// Removing the trailing whitespace keeps exactly the characters before the
/// last non-whitespace position.
proof fn lemma_trim_back_is_subrange(s: Seq<char>, hi: int)
    requires
        0 <= hi <= s.len(),
        forall|k: int| hi <= k < s.len() ==> is_space_char(s[k]),
        hi == 0 || !is_space_char(s[hi - 1]),
    ensures
        trim_back(s) =~= s.subrange(0, hi),
    decreases s.len() - hi,
{
    if hi == s.len() {
    } else {
        assert(is_space_char(s[s.len() - 1]));
        lemma_trim_back_is_subrange(s.drop_last(), hi);
    }
}

/// The trimmed line is the subrange between the first and last
/// non-whitespace positions.
proof fn lemma_trimmed_is_subrange(s: Seq<char>, lo: int, hi: int)
    requires
        0 <= lo <= hi <= s.len(),
        forall|k: int| 0 <= k < lo ==> is_space_char(s[k]),
        lo == s.len() || !is_space_char(s[lo]),
        forall|k: int| hi <= k < s.len() ==> is_space_char(s[k]),
        hi == lo || !is_space_char(s[hi - 1]),
    ensures
        trimmed(s) =~= s.subrange(lo, hi),
{
    lemma_trim_front_is_subrange(s, lo);
    let t = s.subrange(lo, s.len() as int);
    assert(forall|k: int| hi - lo <= k < t.len() ==> is_space_char(t[k]));
    lemma_trim_back_is_subrange(t, hi - lo);
    assert(t.subrange(0, hi - lo) =~= s.subrange(lo, hi));
}

/// Whether `c` is surrounding whitespace for answer lines.
pub fn is_space(c: char) -> (r: bool)
    ensures
        r == is_space_char(c),
{
    c == ' ' || c == '\t' || c == '\n' || c == '\r'
}

/// The answer line with surrounding whitespace removed, as a fresh string.
pub fn trim_line(input: &str) -> (r: String)
    ensures
        r@ == trimmed(input@),
{
    let n = input.unicode_len();
    let mut lo: usize = 0;
    while lo < n && is_space(input.get_char(lo))
        invariant
            0 <= lo <= n,
            n == input@.len(),
            forall|k: int| 0 <= k < lo ==> is_space_char(input@[k]),
        decreases n - lo,
    {
        lo = lo + 1;
    }
    let mut hi: usize = n;
    while hi > lo && is_space(input.get_char(hi - 1))
        invariant
            lo <= hi <= n,
            n == input@.len(),
            forall|k: int| hi <= k < n ==> is_space_char(input@[k]),
        decreases hi,
    {
        hi = hi - 1;
    }
    proof {
        lemma_trimmed_is_subrange(input@, lo as int, hi as int);
    }
    let mid = input.substring_char(lo, hi);
    mid.to_owned()
}

/// Decide a yes/no question from one raw line of operator input.
///
/// The line is trimmed of surrounding whitespace; an empty remainder
/// accepts `default_yes`, the words `y` and `yes` (case-insensitive)
/// mean yes, and every other answer means no.
pub fn answer_accepts(input: &str, default_yes: bool) -> (r: bool)
    ensures
        r == answer_means_yes(input@, default_yes),
{
    let n = input.unicode_len();
    let mut lo: usize = 0;
    while lo < n && is_space(input.get_char(lo))
        invariant
            0 <= lo <= n,
            n == input@.len(),
            forall|k: int| 0 <= k < lo ==> is_space_char(input@[k]),
        decreases n - lo,
    {
        lo = lo + 1;
    }
    let mut hi: usize = n;
    while hi > lo && is_space(input.get_char(hi - 1))
        invariant
            lo <= hi <= n,
            n == input@.len(),
            forall|k: int| hi <= k < n ==> is_space_char(input@[k]),
        decreases hi,
    {
        hi = hi - 1;
    }
    proof {
        lemma_trimmed_is_subrange(input@, lo as int, hi as int);
    }
    let ghost t = trimmed(input@);
    if hi - lo == 0 {
        default_yes
    } else if hi - lo == 1 {
        let c0 = input.get_char(lo);
        assert(c0 == t[0]);
        c0 == 'y' || c0 == 'Y'
    } else if hi - lo == 3 {
        let c0 = input.get_char(lo);
        let c1 = input.get_char(lo + 1);
        let c2 = input.get_char(lo + 2);
        assert(c0 == t[0] && c1 == t[1] && c2 == t[2]);
        (c0 == 'y' || c0 == 'Y') && (c1 == 'e' || c1 == 'E') && (c2 == 's' || c2 == 'S')
    } else {
        false
    }
}

} // verus!
