//! The precedence order on versions.
//!
//! `precedes` is the strict order: numbers first, then a release above each of
//! its pre-releases, then the pre-release labels identifier by identifier.
//! Two versions that differ only in how a numeric identifier is written
//! (`1.0.0-1` and `1.0.0-01`) are tied: neither precedes the other.

use vstd::prelude::*;
use crate::semver::{all_digits, decimal_value, digit_value, is_digits, parse, parse_spec, Semver,
    SemverView};
use crate::text::{copy_range, is_digit, same_chars, split, split_on, to_chars, views};

verus! {

/// Lexicographic order on character sequences, by code point; a proper prefix
/// comes first.
pub open spec fn lex_lt(a: Seq<char>, b: Seq<char>) -> bool
    decreases a.len(),
{
    if b.len() == 0 {
        false
    } else if a.len() == 0 {
        true
    } else if a[0] != b[0] {
        a[0] < b[0]
    } else {
        lex_lt(a.drop_first(), b.drop_first())
    }
}

/// Order on single pre-release identifiers: numeric ones by value, and below
/// every other; the others lexicographically.
pub open spec fn ident_lt(a: Seq<char>, b: Seq<char>) -> bool {
    if is_digits(a) {
        !is_digits(b) || decimal_value(a) < decimal_value(b)
    } else {
        !is_digits(b) && lex_lt(a, b)
    }
}

/// Order on identifier lists: the first differing position decides; a proper
/// prefix comes first.
pub open spec fn idents_lt(a: Seq<Seq<char>>, b: Seq<Seq<char>>) -> bool
    decreases a.len(),
{
    if b.len() == 0 {
        false
    } else if a.len() == 0 {
        true
    } else if ident_lt(a[0], b[0]) {
        true
    } else if ident_lt(b[0], a[0]) {
        false
    } else {
        idents_lt(a.drop_first(), b.drop_first())
    }
}

/// Order on pre-release labels; no label (a release) is above every label.
pub open spec fn pre_lt(a: Option<Seq<char>>, b: Option<Seq<char>>) -> bool {
    match (a, b) {
        (Some(x), Some(y)) => idents_lt(split(x, '.'), split(y, '.')),
        (Some(_), None) => true,
        (None, _) => false,
    }
}

/// `a` is a strictly lower version than `b`.
pub open spec fn precedes(a: SemverView, b: SemverView) -> bool {
    if a.major != b.major {
        a.major < b.major
    } else if a.minor != b.minor {
        a.minor < b.minor
    } else if a.patch != b.patch {
        a.patch < b.patch
    } else {
        pre_lt(a.pre_release, b.pre_release)
    }
}

/// Neither version precedes the other.
pub open spec fn tied(a: SemverView, b: SemverView) -> bool {
    !precedes(a, b) && !precedes(b, a)
}

/// The three-way comparison that `precedes` induces.
pub open spec fn order_of(a: SemverView, b: SemverView) -> std::cmp::Ordering {
    if precedes(a, b) {
        std::cmp::Ordering::Less
    } else if precedes(b, a) {
        std::cmp::Ordering::Greater
    } else {
        std::cmp::Ordering::Equal
    }
}

/// The comparison seen from the other side.
pub open spec fn flipped(o: std::cmp::Ordering) -> std::cmp::Ordering {
    match o {
        std::cmp::Ordering::Less => std::cmp::Ordering::Greater,
        std::cmp::Ordering::Equal => std::cmp::Ordering::Equal,
        std::cmp::Ordering::Greater => std::cmp::Ordering::Less,
    }
}

// ---------------------------------------------------------------------------
// The order is a strict weak order
// ---------------------------------------------------------------------------

/// Of two sequences at most one is below the other.
pub proof fn lemma_lex_asymmetric(a: Seq<char>, b: Seq<char>)
    ensures
        lex_lt(a, b) ==> !lex_lt(b, a),
    decreases a.len(),
{
    if a.len() > 0 && b.len() > 0 && a[0] == b[0] {
        lemma_lex_asymmetric(a.drop_first(), b.drop_first());
    }
}

/// A sequence below `c` is below `b`, or `b` is itself below `c`.
pub proof fn lemma_lex_cotransitive(a: Seq<char>, b: Seq<char>, c: Seq<char>)
    ensures
        lex_lt(a, c) ==> lex_lt(a, b) || lex_lt(b, c),
    decreases a.len(),
{
    if a.len() > 0 && b.len() > 0 && c.len() > 0 && a[0] == b[0] && b[0] == c[0] {
        lemma_lex_cotransitive(a.drop_first(), b.drop_first(), c.drop_first());
    }
}

/// Two different sequences are ordered one way or the other.
pub proof fn lemma_lex_connected(a: Seq<char>, b: Seq<char>)
    ensures
        a != b ==> lex_lt(a, b) || lex_lt(b, a),
    decreases a.len(),
{
    if a.len() > 0 && b.len() > 0 && a[0] == b[0] {
        lemma_lex_connected(a.drop_first(), b.drop_first());
        if a.drop_first() == b.drop_first() {
            assert(a =~= seq![a[0]] + a.drop_first());
            assert(b =~= seq![b[0]] + b.drop_first());
        }
    } else if a.len() == 0 && b.len() == 0 {
        assert(a =~= b);
    }
}

/// Of two identifiers at most one is below the other.
pub proof fn lemma_ident_asymmetric(a: Seq<char>, b: Seq<char>)
    ensures
        ident_lt(a, b) ==> !ident_lt(b, a),
{
    lemma_lex_asymmetric(a, b);
}

/// An identifier below `c` is below `b`, or `b` is itself below `c`.
pub proof fn lemma_ident_cotransitive(a: Seq<char>, b: Seq<char>, c: Seq<char>)
    ensures
        ident_lt(a, c) ==> ident_lt(a, b) || ident_lt(b, c),
{
    lemma_lex_cotransitive(a, b, c);
}

/// Of two identifier lists at most one is below the other.
pub proof fn lemma_idents_asymmetric(a: Seq<Seq<char>>, b: Seq<Seq<char>>)
    ensures
        idents_lt(a, b) ==> !idents_lt(b, a),
    decreases a.len(),
{
    if a.len() > 0 && b.len() > 0 {
        lemma_ident_asymmetric(a[0], b[0]);
        lemma_idents_asymmetric(a.drop_first(), b.drop_first());
    }
}

/// An identifier list below `c` is below `b`, or `b` is itself below `c`.
pub proof fn lemma_idents_cotransitive(a: Seq<Seq<char>>, b: Seq<Seq<char>>, c: Seq<Seq<char>>)
    ensures
        idents_lt(a, c) ==> idents_lt(a, b) || idents_lt(b, c),
    decreases a.len(),
{
    if a.len() > 0 && b.len() > 0 && c.len() > 0 {
        lemma_ident_cotransitive(a[0], b[0], c[0]);
        lemma_ident_cotransitive(b[0], c[0], a[0]);
        lemma_ident_cotransitive(c[0], a[0], b[0]);
        lemma_ident_cotransitive(b[0], a[0], c[0]);
        lemma_ident_cotransitive(c[0], b[0], a[0]);
        lemma_ident_asymmetric(a[0], b[0]);
        lemma_ident_asymmetric(b[0], c[0]);
        lemma_ident_asymmetric(a[0], c[0]);
        lemma_idents_cotransitive(a.drop_first(), b.drop_first(), c.drop_first());
    }
}

/// No version precedes itself.
pub proof fn lemma_precedes_irreflexive(a: SemverView)
    ensures
        !precedes(a, a),
{
    if let Some(x) = a.pre_release {
        lemma_idents_asymmetric(split(x, '.'), split(x, '.'));
    }
}

/// Two versions never precede each other.
pub proof fn lemma_precedes_asymmetric(a: SemverView, b: SemverView)
    ensures
        precedes(a, b) ==> !precedes(b, a),
{
    if let (Some(x), Some(y)) = (a.pre_release, b.pre_release) {
        lemma_idents_asymmetric(split(x, '.'), split(y, '.'));
    }
}

/// A version below `c` is below `b`, or `b` is itself below `c`. Said the
/// other way round: being not below is transitive, so ties form classes.
pub proof fn lemma_precedes_cotransitive(a: SemverView, b: SemverView, c: SemverView)
    ensures
        precedes(a, c) ==> precedes(a, b) || precedes(b, c),
{
    if let (Some(x), Some(y), Some(z)) = (a.pre_release, b.pre_release, c.pre_release) {
        lemma_idents_cotransitive(split(x, '.'), split(y, '.'), split(z, '.'));
    }
}

/// `precedes` is transitive.
pub proof fn lemma_precedes_transitive(a: SemverView, b: SemverView, c: SemverView)
    requires
        precedes(a, b),
        precedes(b, c),
    ensures
        precedes(a, c),
{
    lemma_precedes_cotransitive(a, c, b);
    lemma_precedes_asymmetric(b, c);
}

/// Being tied is transitive.
pub proof fn lemma_tied_transitive(a: SemverView, b: SemverView, c: SemverView)
    requires
        tied(a, b),
        tied(b, c),
    ensures
        tied(a, c),
{
    lemma_precedes_cotransitive(a, b, c);
    lemma_precedes_cotransitive(c, b, a);
}

/// Comparing a version with itself gives `Equal`.
pub proof fn lemma_order_reflexive(a: SemverView)
    ensures
        order_of(a, a) == std::cmp::Ordering::Equal,
{
    lemma_precedes_irreflexive(a);
}

/// Swapping the two versions turns `Less` into `Greater` and back, and keeps
/// `Equal`.
pub proof fn lemma_order_flips(a: SemverView, b: SemverView)
    ensures
        order_of(b, a) == flipped(order_of(a, b)),
{
    lemma_precedes_asymmetric(a, b);
}

/// The comparison is transitive: `Less` chains, and `Equal` chains.
pub proof fn lemma_order_transitive(a: SemverView, b: SemverView, c: SemverView)
    ensures
        order_of(a, b) == std::cmp::Ordering::Less && order_of(b, c) == std::cmp::Ordering::Less
            ==> order_of(a, c) == std::cmp::Ordering::Less,
        order_of(a, b) == std::cmp::Ordering::Equal && order_of(b, c)
            == std::cmp::Ordering::Equal ==> order_of(a, c) == std::cmp::Ordering::Equal,
{
    lemma_precedes_asymmetric(a, b);
    lemma_precedes_asymmetric(b, c);
    if precedes(a, b) && precedes(b, c) {
        lemma_precedes_transitive(a, b, c);
    }
    if tied(a, b) && tied(b, c) {
        lemma_tied_transitive(a, b, c);
    }
}

/// With the same three numbers, a release is above every pre-release.
pub proof fn lemma_release_above_pre_release(release: SemverView, pre: SemverView)
    requires
        release.major == pre.major,
        release.minor == pre.minor,
        release.patch == pre.patch,
        release.pre_release is None,
        pre.pre_release is Some,
    ensures
        order_of(release, pre) == std::cmp::Ordering::Greater,
{
}

// ---------------------------------------------------------------------------
// Decimal strings
// ---------------------------------------------------------------------------

/// Leading zeros do not change the number written.
pub proof fn lemma_leading_zeros(s: Seq<char>, z: int)
    requires
        0 <= z <= s.len(),
        forall|j: int| 0 <= j < z ==> s[j] == '0',
    ensures
        decimal_value(s.skip(z)) == decimal_value(s),
    decreases s.len(),
{
    if s.len() == 0 {
        assert(s.skip(z) =~= s);
    } else if z == s.len() {
        let t = s.drop_last();
        lemma_leading_zeros(t, z - 1);
        assert(t.skip(z - 1) =~= Seq::<char>::empty());
        assert(s.skip(z) =~= Seq::<char>::empty());
        assert(s.last() == s[z - 1]);
    } else {
        let t = s.drop_last();
        lemma_leading_zeros(t, z);
        assert(s.skip(z).drop_last() =~= t.skip(z));
        assert(s.skip(z).last() == s.last());
    }
}

/// Once equally long prefixes of two equally long strings differ in value,
/// the whole strings differ the same way.
pub proof fn lemma_prefix_decides(a: Seq<char>, b: Seq<char>, k: int)
    requires
        a.len() == b.len(),
        0 <= k <= a.len(),
        decimal_value(a.take(k)) < decimal_value(b.take(k)),
    ensures
        decimal_value(a) < decimal_value(b),
    decreases a.len() - k,
{
    if k == a.len() {
        assert(a.take(k) =~= a);
        assert(b.take(k) =~= b);
    } else {
        assert(a.take(k + 1).drop_last() =~= a.take(k));
        assert(b.take(k + 1).drop_last() =~= b.take(k));
        assert(digit_value(a.take(k + 1).last()) <= 9);
        lemma_prefix_decides(a, b, k + 1);
    }
}

/// A digit string that does not start with `0` writes at least one.
pub proof fn lemma_leading_digit(s: Seq<char>)
    requires
        is_digits(s),
        s[0] != '0',
    ensures
        decimal_value(s) >= 1,
    decreases s.len(),
{
    if s.len() == 1 {
        assert(s.drop_last() =~= Seq::<char>::empty());
        assert(decimal_value(s.drop_last()) == 0);
        assert(is_digit(s[0]));
    } else {
        let t = s.drop_last();
        assert(t[0] == s[0]);
        assert forall|i: int| 0 <= i < t.len() implies is_digit(#[trigger] t[i]) by {
            assert(t[i] == s[i]);
        }
        lemma_leading_digit(t);
    }
}

/// A digit string without a leading zero writes more than any shorter string.
pub proof fn lemma_longer_is_larger(a: Seq<char>, b: Seq<char>)
    requires
        is_digits(b),
        b[0] != '0',
        a.len() < b.len(),
    ensures
        decimal_value(a) < decimal_value(b),
    decreases a.len(),
{
    if a.len() == 0 {
        lemma_leading_digit(b);
    } else {
        let s = a.drop_last();
        let t = b.drop_last();
        assert(t[0] == b[0]);
        assert forall|i: int| 0 <= i < t.len() implies is_digit(#[trigger] t[i]) by {
            assert(t[i] == b[i]);
        }
        lemma_longer_is_larger(s, t);
        assert(digit_value(a.last()) <= 9);
    }
}

/// Number of `0` characters at the start of `v`.
fn leading_zeros(v: &Vec<char>) -> (z: usize)
    ensures
        z <= v.len(),
        forall|j: int| 0 <= j < z ==> v@[j] == '0',
        z < v.len() ==> v@[z as int] != '0',
{
    let mut z: usize = 0;
    while z < v.len() && v[z] == '0'
        invariant
            z <= v.len(),
            forall|j: int| 0 <= j < z ==> v@[j] == '0',
        decreases v.len() - z,
    {
        z += 1;
    }
    z
}

/// Compares two digit strings by the numbers they write, whatever their
/// length.
fn numeric_lt(a: &Vec<char>, b: &Vec<char>) -> (r: bool)
    requires
        is_digits(a@),
        is_digits(b@),
    ensures
        r == (decimal_value(a@) < decimal_value(b@)),
{
    let za = leading_zeros(a);
    let zb = leading_zeros(b);
    let sa = copy_range(a, za, a.len());
    let sb = copy_range(b, zb, b.len());
    proof {
        lemma_leading_zeros(a@, za as int);
        lemma_leading_zeros(b@, zb as int);
        assert(sa@ =~= a@.skip(za as int));
        assert(sb@ =~= b@.skip(zb as int));
        assert forall|i: int| 0 <= i < sa@.len() implies is_digit(#[trigger] sa@[i]) by {
            assert(sa@[i] == a@[za + i]);
        }
        assert forall|i: int| 0 <= i < sb@.len() implies is_digit(#[trigger] sb@[i]) by {
            assert(sb@[i] == b@[zb + i]);
        }
    }
    if sa.len() < sb.len() {
        proof {
            lemma_longer_is_larger(sa@, sb@);
        }
        return true;
    }
    if sb.len() < sa.len() {
        proof {
            lemma_longer_is_larger(sb@, sa@);
        }
        return false;
    }
    let mut i: usize = 0;
    assert(sa@.take(0) =~= sb@.take(0));
    while i < sa.len()
        invariant
            i <= sa.len(),
            sa.len() == sb.len(),
            sa@.take(i as int) == sb@.take(i as int),
            forall|j: int| 0 <= j < sa@.len() ==> is_digit(#[trigger] sa@[j]),
            forall|j: int| 0 <= j < sb@.len() ==> is_digit(#[trigger] sb@[j]),
            decimal_value(sa@) == decimal_value(a@),
            decimal_value(sb@) == decimal_value(b@),
        decreases sa.len() - i,
    {
        if sa[i] != sb[i] {
            proof {
                assert(sa@.take(i + 1).drop_last() =~= sa@.take(i as int));
                assert(sb@.take(i + 1).drop_last() =~= sb@.take(i as int));
                assert(is_digit(sa@[i as int]) && is_digit(sb@[i as int]));
                if sa@[i as int] < sb@[i as int] {
                    lemma_prefix_decides(sa@, sb@, i + 1);
                } else {
                    lemma_prefix_decides(sb@, sa@, i + 1);
                }
            }
            return sa[i] < sb[i];
        }
        i += 1;
        assert(sa@.take(i as int) =~= sa@.take(i - 1).push(sa@[i - 1]));
        assert(sb@.take(i as int) =~= sb@.take(i - 1).push(sb@[i - 1]));
    }
    assert(sa@ =~= sa@.take(sa.len() as int));
    assert(sb@ =~= sb@.take(sb.len() as int));
    false
}

// ---------------------------------------------------------------------------
// Executable comparison
// ---------------------------------------------------------------------------

/// Lexicographic comparison of two character vectors.
pub fn chars_lt(a: &Vec<char>, b: &Vec<char>) -> (r: bool)
    ensures
        r == lex_lt(a@, b@),
{
    let mut i: usize = 0;
    assert(a@.skip(0) =~= a@ && b@.skip(0) =~= b@);
    while i < a.len() && i < b.len()
        invariant
            i <= a.len(),
            i <= b.len(),
            lex_lt(a@, b@) == lex_lt(a@.skip(i as int), b@.skip(i as int)),
        decreases a.len() - i,
    {
        if a[i] != b[i] {
            return a[i] < b[i];
        }
        assert(a@.skip(i as int).drop_first() =~= a@.skip(i + 1));
        assert(b@.skip(i as int).drop_first() =~= b@.skip(i + 1));
        i += 1;
    }
    i < b.len()
}

/// Comparison of two pre-release identifiers.
pub fn identifier_lt(a: &Vec<char>, b: &Vec<char>) -> (r: bool)
    ensures
        r == ident_lt(a@, b@),
{
    let a_numeric = all_digits(a);
    let b_numeric = all_digits(b);
    if a_numeric && b_numeric {
        numeric_lt(a, b)
    } else if a_numeric {
        true
    } else if b_numeric {
        false
    } else {
        chars_lt(a, b)
    }
}

/// Comparison of two identifier lists.
pub fn identifiers_lt(a: &Vec<Vec<char>>, b: &Vec<Vec<char>>) -> (r: bool)
    ensures
        r == idents_lt(views(a@), views(b@)),
{
    let ghost xs = views(a@);
    let ghost ys = views(b@);
    let mut i: usize = 0;
    assert(xs.skip(0) =~= xs && ys.skip(0) =~= ys);
    while i < a.len() && i < b.len()
        invariant
            i <= a.len(),
            i <= b.len(),
            xs == views(a@),
            ys == views(b@),
            idents_lt(xs, ys) == idents_lt(xs.skip(i as int), ys.skip(i as int)),
        decreases a.len() - i,
    {
        assert(xs.skip(i as int)[0] == a@[i as int]@);
        assert(ys.skip(i as int)[0] == b@[i as int]@);
        if identifier_lt(&a[i], &b[i]) {
            return true;
        }
        if identifier_lt(&b[i], &a[i]) {
            return false;
        }
        assert(xs.skip(i as int).drop_first() =~= xs.skip(i + 1));
        assert(ys.skip(i as int).drop_first() =~= ys.skip(i + 1));
        i += 1;
    }
    i < b.len()
}

/// Whether `a` is a strictly lower version than `b`.
pub fn is_lower(a: &Semver, b: &Semver) -> (r: bool)
    ensures
        r == precedes(a@, b@),
{
    if a.major != b.major {
        return a.major < b.major;
    }
    if a.minor != b.minor {
        return a.minor < b.minor;
    }
    if a.patch != b.patch {
        return a.patch < b.patch;
    }
    match (&a.pre_release, &b.pre_release) {
        (Some(x), Some(y)) => {
            let xs = split_on(&to_chars(x.as_str()), '.');
            let ys = split_on(&to_chars(y.as_str()), '.');
            identifiers_lt(&xs, &ys)
        },
        (Some(_), None) => true,
        (None, _) => false,
    }
}

/// Three-way comparison of two versions.
pub fn compare(a: &Semver, b: &Semver) -> (o: std::cmp::Ordering)
    ensures
        o == order_of(a@, b@),
{
    if is_lower(a, b) {
        std::cmp::Ordering::Less
    } else if is_lower(b, a) {
        std::cmp::Ordering::Greater
    } else {
        std::cmp::Ordering::Equal
    }
}

/// Two texts name the same version: they write versions of which neither
/// precedes the other, or, where one of them writes no version, they are the
/// same text.
pub open spec fn versions_match(a: Seq<char>, b: Seq<char>) -> bool {
    match (parse_spec(a), parse_spec(b)) {
        (Some(x), Some(y)) => tied(x, y),
        _ => a == b,
    }
}

/// Whether two texts name the same version.
pub fn same_version(a: &str, b: &str) -> (r: bool)
    ensures
        r == versions_match(a@, b@),
{
    match (parse(a), parse(b)) {
        (Some(x), Some(y)) => !is_lower(&x, &y) && !is_lower(&y, &x),
        _ => same_chars(&to_chars(a), &to_chars(b)),
    }
}

/// What `compare_versions` returns: the comparison of the two versions
/// written, where both texts write one.
pub open spec fn version_order_of(a: Seq<char>, b: Seq<char>) -> Option<std::cmp::Ordering> {
    match (parse_spec(a), parse_spec(b)) {
        (Some(x), Some(y)) => Some(order_of(x, y)),
        _ => None,
    }
}

/// Three-way comparison of the versions that two texts write; `None` where
/// one of them writes no version.
pub fn compare_versions(a: &str, b: &str) -> (o: Option<std::cmp::Ordering>)
    ensures
        o == version_order_of(a@, b@),
{
    match (parse(a), parse(b)) {
        (Some(x), Some(y)) => Some(compare(&x, &y)),
        _ => None,
    }
}

} // verus!
