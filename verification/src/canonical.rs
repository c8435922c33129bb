//! Versions in canonical writing are totally ordered.
//!
//! The order of versions ties two versions that differ only in the leading
//! zeros of a numeric pre-release identifier. Where no such identifier has a
//! leading zero, a tie is an equality: two versions that compare equal are
//! the same in every field.

use vstd::prelude::*;
use crate::order::{ident_lt, idents_lt, lemma_lex_connected, lemma_longer_is_larger, tied};
use crate::semver::{decimal_value, digit_value, is_digits, SemverView};
use crate::text::{first_index, is_digit, lemma_first_index, split};

verus! {

/// A numeric identifier is written without leading zeros; any other
/// identifier is canonical as it is.
pub open spec fn is_canonical_identifier(s: Seq<char>) -> bool {
    is_digits(s) && s.len() > 1 ==> s[0] != '0'
}

/// Every identifier of the pre-release label is canonical.
pub open spec fn is_canonical(v: SemverView) -> bool {
    v.pre_release matches Some(label) ==> forall|i: int|
        0 <= i < split(label, '.').len() ==> is_canonical_identifier(
            #[trigger] split(label, '.')[i],
        )
}

/// `parts` with `sep` between them.
pub open spec fn join(parts: Seq<Seq<char>>, sep: char) -> Seq<char>
    decreases parts.len(),
{
    if parts.len() == 0 {
        Seq::empty()
    } else if parts.len() == 1 {
        parts[0]
    } else {
        parts[0] + seq![sep] + join(parts.drop_first(), sep)
    }
}

/// Splitting loses nothing: the pieces joined again are the text.
pub proof fn lemma_join_split(s: Seq<char>, sep: char)
    ensures
        split(s, sep).len() >= 1,
        join(split(s, sep), sep) == s,
    decreases s.len(),
{
    lemma_first_index(s, sep);
    let i = first_index(s, sep);
    if i < s.len() {
        let rest = s.skip(i + 1);
        lemma_join_split(rest, sep);
        let parts = split(s, sep);
        assert(parts.drop_first() =~= split(rest, sep));
        assert(s =~= s.take(i) + seq![sep] + rest);
    }
}

/// Two digit strings of one length that write the same number are the same.
pub proof fn lemma_same_length_same_value(a: Seq<char>, b: Seq<char>)
    requires
        a.len() == b.len(),
        forall|i: int| 0 <= i < a.len() ==> is_digit(#[trigger] a[i]),
        forall|i: int| 0 <= i < b.len() ==> is_digit(#[trigger] b[i]),
        decimal_value(a) == decimal_value(b),
    ensures
        a == b,
    decreases a.len(),
{
    if a.len() == 0 {
        assert(a =~= b);
    } else {
        let x = a.drop_last();
        let y = b.drop_last();
        assert(is_digit(a.last()) && is_digit(b.last()));
        assert(digit_value(a.last()) <= 9 && digit_value(b.last()) <= 9);
        assert forall|i: int| 0 <= i < x.len() implies is_digit(#[trigger] x[i]) by {
            assert(x[i] == a[i]);
        }
        assert forall|i: int| 0 <= i < y.len() implies is_digit(#[trigger] y[i]) by {
            assert(y[i] == b[i]);
        }
        lemma_same_length_same_value(x, y);
        assert(a =~= x.push(a.last()));
        assert(b =~= y.push(b.last()));
    }
}

/// Two canonical numeric identifiers that write the same number are the
/// same.
pub proof fn lemma_canonical_number(a: Seq<char>, b: Seq<char>)
    requires
        is_digits(a),
        is_digits(b),
        is_canonical_identifier(a),
        is_canonical_identifier(b),
        decimal_value(a) == decimal_value(b),
    ensures
        a == b,
{
    if a.len() < b.len() {
        lemma_longer_is_larger(a, b);
    } else if b.len() < a.len() {
        lemma_longer_is_larger(b, a);
    } else {
        lemma_same_length_same_value(a, b);
    }
}

/// Two canonical identifiers of which neither is below the other are the
/// same.
pub proof fn lemma_canonical_identifier(a: Seq<char>, b: Seq<char>)
    requires
        is_canonical_identifier(a),
        is_canonical_identifier(b),
        !ident_lt(a, b),
        !ident_lt(b, a),
    ensures
        a == b,
{
    if is_digits(a) && is_digits(b) {
        lemma_canonical_number(a, b);
    } else {
        lemma_lex_connected(a, b);
    }
}

/// Two lists of canonical identifiers of which neither is below the other
/// are the same.
pub proof fn lemma_canonical_identifiers(a: Seq<Seq<char>>, b: Seq<Seq<char>>)
    requires
        forall|i: int| 0 <= i < a.len() ==> is_canonical_identifier(#[trigger] a[i]),
        forall|i: int| 0 <= i < b.len() ==> is_canonical_identifier(#[trigger] b[i]),
        !idents_lt(a, b),
        !idents_lt(b, a),
    ensures
        a == b,
    decreases a.len(),
{
    if a.len() == 0 || b.len() == 0 {
        assert(a =~= b);
    } else {
        let x = a.drop_first();
        let y = b.drop_first();
        assert(is_canonical_identifier(a[0]) && is_canonical_identifier(b[0]));
        lemma_canonical_identifier(a[0], b[0]);
        assert forall|i: int| 0 <= i < x.len() implies is_canonical_identifier(#[trigger] x[i]) by {
            assert(x[i] == a[i + 1]);
        }
        assert forall|i: int| 0 <= i < y.len() implies is_canonical_identifier(#[trigger] y[i]) by {
            assert(y[i] == b[i + 1]);
        }
        lemma_canonical_identifiers(x, y);
        assert(a =~= seq![a[0]] + x);
        assert(b =~= seq![b[0]] + y);
    }
}

/// Two canonical versions of which neither precedes the other are the same
/// in every field.
pub proof fn lemma_tied_canonical_versions_are_equal(a: SemverView, b: SemverView)
    requires
        is_canonical(a),
        is_canonical(b),
        tied(a, b),
    ensures
        a == b,
{
    if let (Some(x), Some(y)) = (a.pre_release, b.pre_release) {
        lemma_canonical_identifiers(split(x, '.'), split(y, '.'));
        lemma_join_split(x, '.');
        lemma_join_split(y, '.');
    }
}

} // verus!
