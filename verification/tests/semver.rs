use css_variables::order::{compare, compare_versions, same_version};
use css_variables::semver::{parse, Semver};
use std::cmp::Ordering;

fn version(text: &str) -> Semver {
    match parse(text) {
        Some(v) => v,
        None => panic!("{} does not parse", text),
    }
}

fn cmp(a: &str, b: &str) -> Ordering {
    compare(&version(a), &version(b))
}

#[test]
fn parse_reads_three_numbers() {
    let v = version("1.22.333");
    assert_eq!(v.major, 1);
    assert_eq!(v.minor, 22);
    assert_eq!(v.patch, 333);
    assert_eq!(v.pre_release, None);
}

#[test]
fn parse_strips_one_leading_v() {
    assert_eq!(version("v0.1.9").patch, 9);
    assert_eq!(version("V0.1.9").patch, 9);
    assert!(parse("vv0.1.9").is_none());
}

#[test]
fn parse_discards_build_suffix() {
    let v = version("1.2.3-rc.1+build.5");
    assert_eq!(v.pre_release, Some("rc.1".to_string()));
    let w = version("1.2.3+build-5");
    assert_eq!(w.pre_release, None);
    assert_eq!(w.patch, 3);
}

#[test]
fn parse_splits_pre_release_at_first_hyphen() {
    let v = version("1.2.3-alpha-beta");
    assert_eq!(v.pre_release, Some("alpha-beta".to_string()));
    let w = version("1.2.3-");
    assert_eq!(w.pre_release, Some(String::new()));
}

#[test]
fn parse_rejects_missing_or_extra_components() {
    assert!(parse("1.2").is_none());
    assert!(parse("1").is_none());
    assert!(parse("").is_none());
    assert!(parse("1.2.3.4").is_none());
    assert!(parse("1..3").is_none());
    assert!(parse("1.2.").is_none());
}

#[test]
fn parse_rejects_non_numbers() {
    assert!(parse("1.x.3").is_none());
    assert!(parse("1.2.3a").is_none());
    assert!(parse(" 1.2.3").is_none());
    assert!(parse("1.2.3 ").is_none());
    assert!(parse("-1.2.3").is_none());
}

#[test]
fn parse_accepts_leading_zeros_and_the_largest_number() {
    assert_eq!(version("01.002.0003").minor, 2);
    assert_eq!(version("0.0.18446744073709551615").patch, u64::MAX);
    assert!(parse("0.0.18446744073709551616").is_none());
    assert!(parse("0.0.99999999999999999999999").is_none());
}

#[test]
fn compare_is_numeric_not_lexical() {
    assert_eq!(cmp("0.10.0", "0.9.0"), Ordering::Greater);
    assert_eq!(cmp("0.9.0", "0.10.0"), Ordering::Less);
    assert_eq!(cmp("2.0.0", "10.0.0"), Ordering::Less);
    assert_eq!(cmp("1.0.2", "1.0.10"), Ordering::Less);
}

#[test]
fn compare_puts_release_above_pre_release() {
    assert_eq!(cmp("1.0.0", "1.0.0-beta.1"), Ordering::Greater);
    assert_eq!(cmp("1.0.0-beta.1", "1.0.0"), Ordering::Less);
    assert_eq!(cmp("1.0.1-beta.1", "1.0.0"), Ordering::Greater);
}

#[test]
fn compare_pre_release_identifiers_numerically() {
    assert_eq!(cmp("1.0.0-alpha.2", "1.0.0-alpha.1"), Ordering::Greater);
    assert_eq!(cmp("1.0.0-alpha.10", "1.0.0-alpha.9"), Ordering::Greater);
    assert_eq!(cmp("1.0.0-alpha.9", "1.0.0-alpha.10"), Ordering::Less);
    assert_eq!(
        cmp("1.0.0-99999999999999999999999", "1.0.0-100000000000000000000000"),
        Ordering::Less
    );
    assert_eq!(cmp("1.0.0-007", "1.0.0-8"), Ordering::Less);
}

#[test]
fn compare_numeric_identifier_below_text() {
    assert_eq!(cmp("1.0.0-1", "1.0.0-alpha"), Ordering::Less);
    assert_eq!(cmp("1.0.0-alpha", "1.0.0-1"), Ordering::Greater);
    assert_eq!(cmp("1.0.0-999", "1.0.0-1a"), Ordering::Less);
}

#[test]
fn compare_text_identifiers_lexicographically() {
    assert_eq!(cmp("1.0.0-alpha", "1.0.0-beta"), Ordering::Less);
    assert_eq!(cmp("1.0.0-rc", "1.0.0-beta"), Ordering::Greater);
    assert_eq!(cmp("1.0.0-Beta", "1.0.0-alpha"), Ordering::Less);
    assert_eq!(cmp("1.0.0-alph", "1.0.0-alpha"), Ordering::Less);
}

#[test]
fn compare_shorter_identifier_list_is_lower() {
    assert_eq!(cmp("1.0.0-alpha", "1.0.0-alpha.1"), Ordering::Less);
    assert_eq!(cmp("1.0.0-alpha.1", "1.0.0-alpha"), Ordering::Greater);
}

#[test]
fn compare_is_reflexive_and_flips() {
    let samples = [
        "0.9.0",
        "0.10.0",
        "1.0.0",
        "1.0.0-alpha",
        "1.0.0-alpha.1",
        "1.0.0-alpha.beta",
        "1.0.0-beta",
        "1.0.0-beta.2",
        "1.0.0-beta.11",
        "1.0.0-rc.1",
        "1.0.0-",
        "2.1.3+build",
    ];
    for a in samples {
        assert_eq!(cmp(a, a), Ordering::Equal);
        for b in samples {
            assert_eq!(cmp(a, b), cmp(b, a).reverse());
        }
    }
}

#[test]
fn compare_follows_the_documented_chain() {
    let chain = [
        "1.0.0-alpha",
        "1.0.0-alpha.1",
        "1.0.0-alpha.beta",
        "1.0.0-beta",
        "1.0.0-beta.2",
        "1.0.0-beta.11",
        "1.0.0-rc.1",
        "1.0.0",
    ];
    for i in 0..chain.len() {
        for j in 0..chain.len() {
            assert_eq!(cmp(chain[i], chain[j]), i.cmp(&j));
        }
    }
}

#[test]
fn compare_ties_numeric_identifiers_of_equal_value() {
    assert_eq!(cmp("1.0.0-1", "1.0.0-01"), Ordering::Equal);
    assert_eq!(cmp("1.0.0+a", "1.0.0+b"), Ordering::Equal);
}

#[test]
fn compare_versions_reads_both_texts() {
    assert_eq!(compare_versions("0.10.0", "0.9.0"), Some(Ordering::Greater));
    assert_eq!(compare_versions("1.0.0", "1.0.0-beta.1"), Some(Ordering::Greater));
    assert_eq!(compare_versions("1.0.0-alpha.2", "1.0.0-alpha.1"), Some(Ordering::Greater));
    assert_eq!(compare_versions("1.0.0-alpha.10", "1.0.0-alpha.9"), Some(Ordering::Greater));
    assert_eq!(compare_versions("v1.2.3", "1.2.3+build"), Some(Ordering::Equal));
    assert_eq!(compare_versions("1.2.3", "1.2.4"), Some(Ordering::Less));
    assert_eq!(compare_versions("1.2", "1.2.4"), None);
    assert_eq!(compare_versions("1.2.3", ""), None);
    assert_eq!(compare_versions("x", "y"), None);
}

#[test]
fn compare_equal_only_for_the_same_fields() {
    let samples = [
        "0.9.0",
        "0.10.0",
        "1.0.0",
        "1.0.0-0",
        "1.0.0-1",
        "1.0.0-10",
        "1.0.0-alpha",
        "1.0.0-alpha.0",
        "1.0.0-alpha.1",
        "1.0.0-alpha.a",
        "1.0.0-alpha..1",
        "1.0.0-",
        "1.0.0-.",
        "1.0.0-0a",
        "1.0.0-00a",
    ];
    for a in samples {
        for b in samples {
            assert_eq!(cmp(a, b) == Ordering::Equal, version(a) == version(b));
            assert_eq!(cmp(a, b) == Ordering::Equal, a == b);
        }
    }
}

#[test]
fn compare_is_transitive_on_samples() {
    let samples = [
        "1.0.0-01", "1.0.0-1", "1.0.0-2", "1.0.0-a", "1.0.0-", "1.0.0-a.b", "1.0.0-a.1",
        "1.0.0", "0.9.9", "1.0.1-0", "1.0.0-1.1", "1.0.0-001",
    ];
    for a in samples {
        for b in samples {
            for c in samples {
                if cmp(a, b) != Ordering::Greater && cmp(b, c) != Ordering::Greater {
                    assert_ne!(cmp(a, c), Ordering::Greater);
                }
                if cmp(a, b) == Ordering::Less && cmp(b, c) != Ordering::Greater {
                    assert_eq!(cmp(a, c), Ordering::Less);
                }
            }
        }
    }
}

#[test]
fn same_version_goes_by_the_version_written() {
    assert!(same_version("0.1.6", "0.1.6"));
    assert!(same_version("v0.1.6", "0.1.6+build"));
    assert!(same_version("1.0.0-rc.1", "1.0.0-rc.01"));
    assert!(!same_version("0.1.5", "0.1.6"));
    assert!(!same_version("1.0.0-rc.1", "1.0.0"));
    assert!(same_version("nightly", "nightly"));
    assert!(!same_version("nightly", "Nightly"));
    assert!(!same_version("1.0", "1.0.0"));
    assert!(same_version("", ""));
}
