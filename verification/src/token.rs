//! Finding a version token inside free text, such as the output of
//! `program --version`.

use vstd::prelude::*;
use crate::text::{char_is_alnum, char_is_digit, is_alnum, is_digit, string_of, to_chars};

verus! {

/// Characters that may follow the three numbers of a token.
pub open spec fn is_tail(c: char) -> bool {
    is_alnum(c) || c == '.' || c == '-' || c == '+'
}

/// End of the longest run of digits that starts at `from`.
pub open spec fn digits_end(s: Seq<char>, from: int) -> int
    decreases s.len() - from,
{
    if 0 <= from < s.len() && is_digit(s[from]) {
        digits_end(s, from + 1)
    } else {
        from
    }
}

/// End of the longest run of tail characters that starts at `from`.
pub open spec fn tail_end(s: Seq<char>, from: int) -> int
    decreases s.len() - from,
{
    if 0 <= from < s.len() && is_tail(s[from]) {
        tail_end(s, from + 1)
    } else {
        from
    }
}

/// Where the token that starts at `i` ends, if one starts there: digits, a
/// dot, digits, a dot, digits, and then every tail character that follows.
pub open spec fn token_end_at(s: Seq<char>, i: int) -> Option<int> {
    let a = digits_end(s, i);
    let b = digits_end(s, a + 1);
    let c = digits_end(s, b + 1);
    if 0 <= i < a && a < s.len() && s[a] == '.' && a + 1 < b && b < s.len() && s[b] == '.' && b
        + 1 < c {
        Some(tail_end(s, c))
    } else {
        None
    }
}

/// The least position at or after `i` where a token starts.
pub open spec fn first_token_from(s: Seq<char>, i: int) -> Option<int>
    decreases s.len() - i,
{
    if i < 0 || i >= s.len() {
        None
    } else if token_end_at(s, i) is Some {
        Some(i)
    } else {
        first_token_from(s, i + 1)
    }
}

/// The leftmost version token of `s`, taken as long as it goes.
pub open spec fn version_token(s: Seq<char>) -> Option<Seq<char>> {
    match first_token_from(s, 0) {
        Some(i) => Some(s.subrange(i, token_end_at(s, i)->0)),
        None => None,
    }
}

/// A token lies inside the text, starts with a digit, and holds two dots.
pub proof fn lemma_token_bounds(s: Seq<char>, i: int)
    requires
        token_end_at(s, i) is Some,
    ensures
        0 <= i < s.len(),
        i + 5 <= token_end_at(s, i)->0 <= s.len(),
        is_digit(s[i]),
{
    let a = digits_end(s, i);
    let b = digits_end(s, a + 1);
    let c = digits_end(s, b + 1);
    lemma_digits_end(s, b + 1);
    lemma_tail_end(s, c);
}

/// `digits_end` stays inside the text and moves only over digits.
pub proof fn lemma_digits_end(s: Seq<char>, from: int)
    requires
        0 <= from <= s.len(),
    ensures
        from <= digits_end(s, from) <= s.len(),
        forall|j: int| from <= j < digits_end(s, from) ==> is_digit(s[j]),
        digits_end(s, from) < s.len() ==> !is_digit(s[digits_end(s, from)]),
    decreases s.len() - from,
{
    if from < s.len() && is_digit(s[from]) {
        lemma_digits_end(s, from + 1);
    }
}

/// `tail_end` stays inside the text and moves only over tail characters.
pub proof fn lemma_tail_end(s: Seq<char>, from: int)
    requires
        0 <= from <= s.len(),
    ensures
        from <= tail_end(s, from) <= s.len(),
        forall|j: int| from <= j < tail_end(s, from) ==> is_tail(s[j]),
        tail_end(s, from) < s.len() ==> !is_tail(s[tail_end(s, from)]),
    decreases s.len() - from,
{
    if from < s.len() && is_tail(s[from]) {
        lemma_tail_end(s, from + 1);
    }
}

/// No token starts before the first one.
pub proof fn lemma_first_token_is_leftmost(s: Seq<char>, i: int, k: int)
    requires
        0 <= i <= k < s.len(),
        token_end_at(s, k) is Some,
    ensures
        first_token_from(s, i) is Some,
        i <= first_token_from(s, i)->0 <= k,
        token_end_at(s, first_token_from(s, i)->0) is Some,
        forall|j: int| i <= j < first_token_from(s, i)->0 ==> token_end_at(s, j) is None,
    decreases k - i,
{
    if token_end_at(s, i) is None {
        lemma_first_token_is_leftmost(s, i + 1, k);
    }
}

fn char_is_tail(c: char) -> (r: bool)
    ensures
        r == is_tail(c),
{
    char_is_alnum(c) || c == '.' || c == '-' || c == '+'
}

fn scan_digits(v: &Vec<char>, from: usize) -> (e: usize)
    requires
        from <= v.len(),
    ensures
        e == digits_end(v@, from as int),
        from <= e <= v.len(),
{
    let mut e: usize = from;
    while e < v.len() && char_is_digit(v[e])
        invariant
            from <= e <= v.len(),
            digits_end(v@, from as int) == digits_end(v@, e as int),
        decreases v.len() - e,
    {
        e += 1;
    }
    e
}

fn scan_tail(v: &Vec<char>, from: usize) -> (e: usize)
    requires
        from <= v.len(),
    ensures
        e == tail_end(v@, from as int),
        from <= e <= v.len(),
{
    let mut e: usize = from;
    while e < v.len() && char_is_tail(v[e])
        invariant
            from <= e <= v.len(),
            tail_end(v@, from as int) == tail_end(v@, e as int),
        decreases v.len() - e,
    {
        e += 1;
    }
    e
}

/// End of the token that starts at `i`, if one starts there.
fn token_at(v: &Vec<char>, i: usize) -> (r: Option<usize>)
    requires
        i < v.len(),
    ensures
        match r {
            Some(e) => token_end_at(v@, i as int) == Some(e as int) && i < e <= v.len(),
            None => token_end_at(v@, i as int) is None,
        },
{
    let a = scan_digits(v, i);
    if a == i || a >= v.len() || v[a] != '.' {
        return None;
    }
    let b = scan_digits(v, a + 1);
    if b == a + 1 || b >= v.len() || v[b] != '.' {
        return None;
    }
    let c = scan_digits(v, b + 1);
    if c == b + 1 {
        return None;
    }
    Some(scan_tail(v, c))
}

/// The first version token in `text`: three dot-separated runs of digits and
/// whatever letters, digits, dots, hyphens and plus signs follow them.
/// `None` when the text holds no such token.
pub fn extract_version_token(text: &str) -> (r: Option<String>)
    ensures
        match r {
            Some(t) => version_token(text@) == Some(t@),
            None => version_token(text@) is None,
        },
{
    let chars = to_chars(text);
    let mut i: usize = 0;
    while i < chars.len()
        invariant
            i <= chars.len(),
            chars@ == text@,
            first_token_from(chars@, 0) == first_token_from(chars@, i as int),
        decreases chars.len() - i,
    {
        match token_at(&chars, i) {
            Some(e) => {
                return Some(string_of(&chars, i, e));
            },
            None => {},
        }
        i += 1;
    }
    None
}

} // verus!
