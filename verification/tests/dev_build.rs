use css_variables::dev_build::{dev_build_locations, newest_build, BuildCandidate};
use css_variables::release::Platform;

#[test]
fn dev_build_locations_per_platform() {
    assert_eq!(
        dev_build_locations(Platform::Linux),
        vec![
            "../css-variable-lsp/target/release/css-variable-lsp",
            "../css-variable-lsp/target/debug/css-variable-lsp",
            "../../css-variable-lsp/target/release/css-variable-lsp",
            "../../css-variable-lsp/target/debug/css-variable-lsp",
        ]
    );
    assert_eq!(dev_build_locations(Platform::Mac), dev_build_locations(Platform::Linux));
    assert_eq!(
        dev_build_locations(Platform::Windows),
        vec![
            "../css-variable-lsp/target/release/css-variable-lsp.exe",
            "../css-variable-lsp/target/debug/css-variable-lsp.exe",
            "../../css-variable-lsp/target/release/css-variable-lsp.exe",
            "../../css-variable-lsp/target/debug/css-variable-lsp.exe",
        ]
    );
}

#[test]
fn newest_build_is_the_one_modified_last() {
    let candidate = |path: &str, modified: u64| BuildCandidate { path: path.to_string(), modified };
    assert_eq!(newest_build(&Vec::new()), None);
    assert_eq!(newest_build(&vec![candidate("a", 0)]), Some("a".to_string()));
    assert_eq!(
        newest_build(&vec![candidate("a", 10), candidate("b", 30), candidate("c", 20)]),
        Some("b".to_string())
    );
    assert_eq!(
        newest_build(&vec![candidate("a", 30), candidate("b", 30), candidate("c", 7)]),
        Some("a".to_string())
    );
    assert_eq!(
        newest_build(&vec![candidate("a", 1), candidate("b", 2), candidate("c", u64::MAX)]),
        Some("c".to_string())
    );
}
