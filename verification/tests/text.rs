use binary_blog::text::{
    chars_of, contains, decimal_text, ends_with, find_first, find_last, matches_at,
    signed_decimal_text, starts_with,
};

#[test]
fn chars_of_keeps_every_character() {
    assert_eq!(chars_of(""), Vec::<char>::new());
    assert_eq!(chars_of("a/b"), vec!['a', '/', 'b']);
    assert_eq!(chars_of("© é"), vec!['©', ' ', 'é']);
}

#[test]
fn contains_finds_substrings() {
    assert!(contains("gzip, deflate, br", "deflate"));
    assert!(contains("deflate", "deflate"));
    assert!(contains("xdeflatex", "deflate"));
    assert!(contains("anything", ""));
    assert!(contains("", ""));
    assert!(!contains("deflat", "deflate"));
    assert!(!contains("", "deflate"));
    assert!(!contains("de flate", "deflate"));
    assert!(!contains("DEFLATE", "deflate"));
    assert!(contains("aab", "ab"));
    assert!(contains("é©text/html", "text/html"));
}

#[test]
fn contains_agrees_with_std() {
    let samples = ["", "a", "ab", "aba", "abab", "text/html", "text/htm", "xtext/htmlx", "é"];
    for hay in samples {
        for needle in samples {
            assert_eq!(contains(hay, needle), hay.contains(needle), "{:?} in {:?}", needle, hay);
            assert_eq!(starts_with(hay, needle), hay.starts_with(needle));
            assert_eq!(ends_with(hay, needle), hay.ends_with(needle));
        }
    }
}

#[test]
fn prefix_and_suffix() {
    assert!(starts_with("posts/a/content.md", "posts/a/"));
    assert!(!starts_with("posts/ab/content.md", "posts/a/"));
    assert!(starts_with("x", ""));
    assert!(!starts_with("", "x"));
    assert!(ends_with("posts/a/content.md", "content.md"));
    assert!(ends_with("/", "/"));
    assert!(!ends_with("", "/"));
    assert!(!ends_with("/a", "/"));
}

#[test]
fn matches_at_compares_in_place() {
    let hay = chars_of("hello world");
    assert!(matches_at(&hay, &chars_of("world"), 6));
    assert!(!matches_at(&hay, &chars_of("world"), 5));
    assert!(matches_at(&hay, &chars_of(""), 11));
}

#[test]
fn decimal_text_writes_numerals() {
    assert_eq!(decimal_text(0), "0");
    assert_eq!(decimal_text(7), "7");
    assert_eq!(decimal_text(10), "10");
    assert_eq!(decimal_text(1234567890), "1234567890");
    assert_eq!(decimal_text(u64::MAX), "18446744073709551615");
    for n in [0u64, 9, 10, 99, 100, 101, 4242, 17208182628683268250] {
        assert_eq!(decimal_text(n), n.to_string());
    }
}

#[test]
fn signed_decimal_text_writes_the_sign() {
    assert_eq!(signed_decimal_text(0), "0");
    assert_eq!(signed_decimal_text(2023), "2023");
    assert_eq!(signed_decimal_text(-1), "-1");
    assert_eq!(signed_decimal_text(i32::MIN), "-2147483648");
    assert_eq!(signed_decimal_text(i32::MAX), "2147483647");
}

#[test]
fn find_first_and_last() {
    let path = chars_of("posts/2023-x/content.md");
    assert_eq!(find_first(&path, '-'), 10);
    assert_eq!(find_first(&path, '/'), 5);
    assert_eq!(find_first(&path, '#'), path.len());
    assert_eq!(find_first(&Vec::new(), '-'), 0);
    assert_eq!(find_last(&path, '/', path.len()), Some(12));
    assert_eq!(find_last(&path, '/', 12), Some(5));
    assert_eq!(find_last(&path, '/', 5), None);
    assert_eq!(find_last(&path, '#', path.len()), None);
    assert_eq!(find_last(&path, '/', 0), None);
}
