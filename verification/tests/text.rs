use fs_gate::text::{chars_of, matches_at, replace_text};

#[test]
fn replace_text_replaces_all_occurrences() {
    assert_eq!(replace_text("hello world", "world", "there"), "hello there");
    assert_eq!(replace_text("a-b-c", "-", "+"), "a+b+c");
    assert_eq!(replace_text("abab", "ab", ""), "");
    assert_eq!(replace_text("abc", "abc", "x"), "x");
    assert_eq!(replace_text("abc", "abcd", "x"), "abc");
    assert_eq!(replace_text("", "a", "x"), "");
}

#[test]
fn replace_text_goes_from_left_to_right_without_overlap() {
    assert_eq!(replace_text("aaa", "aa", "b"), "ba");
    assert_eq!(replace_text("aaaa", "aa", "b"), "bb");
    assert_eq!(replace_text("ababa", "aba", "x"), "xba");
    assert_eq!(replace_text("aa", "a", "aa"), "aaaa");
}

#[test]
fn replace_text_with_an_empty_pattern() {
    assert_eq!(replace_text("abc", "", "-"), "-a-b-c-");
    assert_eq!(replace_text("", "", "x"), "x");
    assert_eq!(replace_text("ab", "", ""), "ab");
}

#[test]
fn replace_text_agrees_with_the_standard_library() {
    let texts = ["", "a", "aaa", "abcabc", "größe groß", "日本語の日本", "x\ny\n", "a.b.c"];
    let patterns = ["", "a", "aa", "bc", "ß", "日本", "\n", ".", "zzz"];
    let replacements = ["", "a", "ß", "long replacement"];
    for text in texts {
        for pattern in patterns {
            for replacement in replacements {
                assert_eq!(
                    replace_text(text, pattern, replacement),
                    text.replace(pattern, replacement)
                );
            }
        }
    }
}

#[test]
fn replace_text_leaves_a_text_without_occurrence_alone() {
    assert_eq!(replace_text("hello", "xyz", "q"), "hello");
    assert_eq!(replace_text("hello", "lo!", "q"), "hello");
}

#[test]
fn chars_of_gives_the_characters() {
    assert_eq!(chars_of("aß日"), vec!['a', 'ß', '日']);
    assert_eq!(chars_of(""), Vec::<char>::new());
}

#[test]
fn matches_at_finds_the_pattern_only_where_it_stands() {
    let text = chars_of("abcab");
    let pattern = chars_of("ab");
    assert!(matches_at(&text, &pattern, 0));
    assert!(!matches_at(&text, &pattern, 1));
    assert!(matches_at(&text, &pattern, 3));
    assert!(!matches_at(&text, &pattern, 4));
    assert!(!matches_at(&text, &pattern, 5));
    assert!(matches_at(&text, &Vec::new(), 5));
}

#[test]
fn matches_at_finds_nothing_beyond_the_end() {
    let text = chars_of("ab");
    assert!(!matches_at(&text, &chars_of("a"), 3));
    assert!(!matches_at(&text, &Vec::new(), 3));
    assert!(!matches_at(&text, &Vec::new(), usize::MAX));
    assert!(matches_at(&text, &Vec::new(), 2));
}
