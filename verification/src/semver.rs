//! Version strings: `major.minor.patch` with an optional pre-release label.

use vstd::prelude::*;
use crate::text::{
    char_is_digit, copy_range, find_from, first_index, is_digit, split, split_on, string_of,
    to_chars, views,
};

verus! {

/// A parsed version.
#[derive(Clone, Debug, PartialEq, Eq)]
pub struct Semver {
    pub major: u64,
    pub minor: u64,
    pub patch: u64,
    pub pre_release: Option<String>,
}

/// The mathematical value of a `Semver`.
pub struct SemverView {
    pub major: nat,
    pub minor: nat,
    pub patch: nat,
    pub pre_release: Option<Seq<char>>,
}

impl View for Semver {
    type V = SemverView;

    open spec fn view(&self) -> SemverView {
        SemverView {
            major: self.major as nat,
            minor: self.minor as nat,
            patch: self.patch as nat,
            pre_release: match self.pre_release {
                Some(p) => Some(p@),
                None => None,
            },
        }
    }
}

/// Every character is an ASCII digit and there is at least one.
pub open spec fn is_digits(s: Seq<char>) -> bool {
    s.len() > 0 && forall|i: int| 0 <= i < s.len() ==> is_digit(#[trigger] s[i])
}

/// The value of one decimal digit.
pub open spec fn digit_value(c: char) -> nat {
    if is_digit(c) {
        (c as nat - '0' as nat) as nat
    } else {
        0
    }
}

/// The number that the digits of `s` write in base ten.
pub open spec fn decimal_value(s: Seq<char>) -> nat
    decreases s.len(),
{
    if s.len() == 0 {
        0
    } else {
        decimal_value(s.drop_last()) * 10 + digit_value(s.last())
    }
}

/// What a component of the version core denotes: digits only, and small
/// enough for a `u64`.
pub open spec fn number_of(s: Seq<char>) -> Option<nat> {
    if is_digits(s) && decimal_value(s) <= u64::MAX {
        Some(decimal_value(s))
    } else {
        None
    }
}

/// `s` without one leading `v` or `V`.
pub open spec fn strip_v(s: Seq<char>) -> Seq<char> {
    if s.len() > 0 && (s[0] == 'v' || s[0] == 'V') {
        s.drop_first()
    } else {
        s
    }
}

/// The part of `s` before the first `c`; all of `s` when `c` does not occur.
pub open spec fn before(s: Seq<char>, c: char) -> Seq<char> {
    s.take(first_index(s, c))
}

/// The part of `s` after the first `c`, when `c` occurs.
pub open spec fn after(s: Seq<char>, c: char) -> Option<Seq<char>> {
    if first_index(s, c) < s.len() {
        Some(s.skip(first_index(s, c) + 1))
    } else {
        None
    }
}

/// The version that `token` writes, if it writes one.
///
/// One leading `v` or `V` is dropped, then everything from the first `+` on.
/// What remains is cut at its first `-` into core and pre-release label. The
/// core has to be exactly three numbers separated by dots.
pub open spec fn parse_spec(token: Seq<char>) -> Option<SemverView> {
    let body = before(strip_v(token), '+');
    let core = split(before(body, '-'), '.');
    if core.len() == 3 && number_of(core[0]) is Some && number_of(core[1]) is Some && number_of(
        core[2],
    ) is Some {
        Some(
            SemverView {
                major: number_of(core[0])->0,
                minor: number_of(core[1])->0,
                patch: number_of(core[2])->0,
                pre_release: after(body, '-'),
            },
        )
    } else {
        None
    }
}

/// A prefix of a digit string never writes a larger number than the whole.
pub proof fn lemma_decimal_value_prefix(s: Seq<char>, k: int)
    requires
        0 <= k <= s.len(),
    ensures
        decimal_value(s.take(k)) <= decimal_value(s),
    decreases s.len(),
{
    if k == s.len() {
        assert(s.take(k) =~= s);
    } else {
        lemma_decimal_value_prefix(s.drop_last(), k);
        assert(s.drop_last().take(k) =~= s.take(k));
    }
}

/// Whether `v` is a non-empty run of ASCII digits.
pub fn all_digits(v: &Vec<char>) -> (r: bool)
    ensures
        r == is_digits(v@),
{
    if v.len() == 0 {
        return false;
    }
    let mut i: usize = 0;
    while i < v.len()
        invariant
            i <= v.len(),
            forall|j: int| 0 <= j < i ==> is_digit(#[trigger] v@[j]),
        decreases v.len() - i,
    {
        if !char_is_digit(v[i]) {
            return false;
        }
        i += 1;
    }
    true
}

/// The value of the digit `c`.
fn digit_of(c: char) -> (d: u64)
    requires
        is_digit(c),
    ensures
        d == digit_value(c),
        d <= 9,
{
    (c as u32 - '0' as u32) as u64
}

/// Reads a component of the version core.
pub fn parse_number(v: &Vec<char>) -> (r: Option<u64>)
    ensures
        match r {
            Some(n) => number_of(v@) == Some(n as nat),
            None => number_of(v@) is None,
        },
{
    if v.len() == 0 {
        return None;
    }
    let mut acc: u64 = 0;
    let mut i: usize = 0;
    assert(v@.take(0) =~= Seq::<char>::empty());
    while i < v.len()
        invariant
            i <= v.len(),
            forall|j: int| 0 <= j < i ==> is_digit(#[trigger] v@[j]),
            acc == decimal_value(v@.take(i as int)),
        decreases v.len() - i,
    {
        let c = v[i];
        if !char_is_digit(c) {
            return None;
        }
        let d = digit_of(c);
        proof {
            assert(v@.take(i + 1).drop_last() =~= v@.take(i as int));
            assert(v@.take(i + 1).last() == c);
            lemma_decimal_value_prefix(v@, i + 1);
        }
        if acc > (u64::MAX - d) / 10 {
            return None;
        }
        acc = acc * 10 + d;
        i += 1;
    }
    assert(v@.take(v.len() as int) =~= v@);
    Some(acc)
}

/// Reads a version from `token`.
pub fn parse(token: &str) -> (r: Option<Semver>)
    ensures
        match r {
            Some(v) => parse_spec(token@) == Some(v@),
            None => parse_spec(token@) is None,
        },
{
    let chars = to_chars(token);
    let start: usize = if chars.len() > 0 && (chars[0] == 'v' || chars[0] == 'V') {
        1
    } else {
        0
    };
    let stripped = copy_range(&chars, start, chars.len());
    assert(stripped@ =~= strip_v(token@));
    assert(stripped@.skip(0) =~= stripped@);
    let plus = find_from(&stripped, 0, '+');
    let body = copy_range(&stripped, 0, plus);
    assert(body@ =~= before(strip_v(token@), '+'));
    assert(body@.skip(0) =~= body@);
    let dash = find_from(&body, 0, '-');
    let core = copy_range(&body, 0, dash);
    assert(core@ =~= before(body@, '-'));
    let parts = split_on(&core, '.');
    if parts.len() != 3 {
        return None;
    }
    assert(views(parts@)[0] == parts@[0]@);
    assert(views(parts@)[1] == parts@[1]@);
    assert(views(parts@)[2] == parts@[2]@);
    let major = match parse_number(&parts[0]) {
        Some(n) => n,
        None => { return None; },
    };
    let minor = match parse_number(&parts[1]) {
        Some(n) => n,
        None => { return None; },
    };
    let patch = match parse_number(&parts[2]) {
        Some(n) => n,
        None => { return None; },
    };
    let pre_release = if dash < body.len() {
        let label = string_of(&body, dash + 1, body.len());
        assert(label@ =~= body@.skip(dash + 1));
        Some(label)
    } else {
        None
    };
    Some(Semver { major, minor, patch, pre_release })
}

} // verus!
