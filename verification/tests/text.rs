use css_variables::text::{
    char_is_alnum, char_is_digit, char_is_space, copy_range, copy_strings, ends_with, find_from,
    join_path, same_chars, split_on, starts_with, string_of, to_chars,
};

fn chars(s: &str) -> Vec<char> {
    s.chars().collect()
}

#[test]
fn text_character_classes() {
    for c in ['0', '5', '9'] {
        assert!(char_is_digit(c) && char_is_alnum(c));
    }
    for c in ['a', 'z', 'A', 'Z'] {
        assert!(!char_is_digit(c) && char_is_alnum(c));
    }
    for c in ['/', ':', '@', '[', '`', '{', '\u{e9}', '\u{661}', '_', '-'] {
        assert!(!char_is_digit(c) && !char_is_alnum(c));
    }
    for code in 0u32..0x3100 {
        if let Some(c) = char::from_u32(code) {
            assert_eq!(char_is_space(c), c.is_whitespace());
        }
    }
}

#[test]
fn text_conversions_keep_every_character() {
    let s = "a\u{e9}\u{1f600}z";
    assert_eq!(to_chars(s), chars(s));
    assert_eq!(to_chars(""), Vec::<char>::new());
    let v = chars("hello world");
    assert_eq!(string_of(&v, 0, 11), "hello world");
    assert_eq!(string_of(&v, 6, 11), "world");
    assert_eq!(string_of(&v, 3, 3), "");
    assert_eq!(copy_range(&v, 2, 5), chars("llo"));
    assert_eq!(
        copy_strings(&vec!["a".to_string(), String::new(), "b c".to_string()]),
        vec!["a", "", "b c"]
    );
}

#[test]
fn text_find_and_split() {
    let v = chars("a.b..c");
    assert_eq!(find_from(&v, 0, '.'), 1);
    assert_eq!(find_from(&v, 1, '.'), 1);
    assert_eq!(find_from(&v, 2, '.'), 3);
    assert_eq!(find_from(&v, 5, '.'), 6);
    assert_eq!(find_from(&v, 6, '.'), 6);
    assert_eq!(find_from(&v, 0, 'x'), 6);
    assert_eq!(split_on(&v, '.'), vec![chars("a"), chars("b"), chars(""), chars("c")]);
    assert_eq!(split_on(&chars(""), '.'), vec![chars("")]);
    assert_eq!(split_on(&chars("."), '.'), vec![chars(""), chars("")]);
    assert_eq!(split_on(&chars("abc"), '.'), vec![chars("abc")]);
    assert_eq!(split_on(&chars("abc."), '.'), vec![chars("abc"), chars("")]);
}

#[test]
fn text_prefix_suffix_and_paths() {
    assert!(starts_with(&chars("prefix-x"), &chars("prefix-")));
    assert!(starts_with(&chars("prefix-"), &chars("prefix-")));
    assert!(starts_with(&chars("x"), &chars("")));
    assert!(!starts_with(&chars("prefix"), &chars("prefix-")));
    assert!(!starts_with(&chars("Prefix-x"), &chars("prefix-")));
    assert!(ends_with(&chars("a.tar.gz"), &chars(".gz")));
    assert!(ends_with(&chars(".gz"), &chars(".gz")));
    assert!(ends_with(&chars("x"), &chars("")));
    assert!(!ends_with(&chars("gz"), &chars(".gz")));
    assert!(!ends_with(&chars("a.gz.b"), &chars(".gz")));
    assert!(same_chars(&chars("abc"), &chars("abc")));
    assert!(!same_chars(&chars("abc"), &chars("abd")));
    assert!(!same_chars(&chars("abc"), &chars("ab")));
    assert_eq!(join_path("dir", "file"), "dir/file");
    assert_eq!(join_path("", "file"), "/file");
    assert_eq!(join_path("a/b", ""), "a/b/");
}
