use voice_hotkeys::text::{
    chars_of, find_char, is_blank_text, is_whitespace, range_is, remove_pattern, starts_at,
    push_code, push_decimal, push_signed_decimal, string_of, sub_vec, trim_range, trimmed,
};

fn chars(s: &str) -> Vec<char> {
    s.chars().collect()
}

fn text(v: &[char]) -> String {
    v.iter().collect()
}

#[test]
fn whitespace_is_what_std_calls_whitespace() {
    let mut c = 0u32;
    while c <= 0x10FFFF {
        if let Some(ch) = char::from_u32(c) {
            assert_eq!(is_whitespace(ch), ch.is_whitespace(), "U+{:04X}", c);
        }
        c += 1;
    }
}

#[test]
fn chars_of_gives_the_characters_in_order() {
    assert_eq!(chars_of(""), Vec::<char>::new());
    assert_eq!(chars_of("aé€😀"), vec!['a', 'é', '€', '😀']);
}

#[test]
fn string_of_and_sub_vec_copy_a_range() {
    let v = chars("hello world");
    assert_eq!(string_of(&v, 0, 5), "hello");
    assert_eq!(string_of(&v, 6, 11), "world");
    assert_eq!(string_of(&v, 3, 3), "");
    assert_eq!(sub_vec(&v, 4, 7), vec!['o', ' ', 'w']);
    assert_eq!(sub_vec(&v, 0, 0), Vec::<char>::new());
}

#[test]
fn trim_range_narrows_to_the_text() {
    let v = chars("  \t hi there \r\n");
    assert_eq!(trim_range(&v, 0, v.len()), (4, 12));
    // a range inside the text is trimmed on its own
    assert_eq!(trim_range(&v, 6, 8), (7, 8));
    assert_eq!(trim_range(&v, 6, 7), (7, 7));
    let blank = chars(" \u{3000}\u{85}\n");
    let (lo, hi) = trim_range(&blank, 0, blank.len());
    assert_eq!(lo, hi);
}

#[test]
fn trimmed_agrees_with_std_trim() {
    let samples = [
        "",
        " ",
        "a",
        " a",
        "a ",
        "  a b  ",
        "\t\r\n x \u{a0}\u{2003}",
        "\u{200b} zero width space is no white space \u{200b}",
        "\u{1680}ogham\u{205f}",
        "é",
        "\n\n",
    ];
    for s in samples {
        assert_eq!(trimmed(s), s.trim(), "{:?}", s);
        assert_eq!(is_blank_text(s), s.trim().is_empty(), "{:?}", s);
    }
}

#[test]
fn starts_at_and_range_is_compare_characters() {
    let v = chars("abcabc");
    assert!(starts_at(&v, 0, &chars("abc")));
    assert!(starts_at(&v, 3, &chars("abc")));
    assert!(!starts_at(&v, 1, &chars("abc")));
    assert!(!starts_at(&v, 4, &chars("abc")));
    assert!(starts_at(&v, 6, &chars("")));
    assert!(range_is(&v, 1, 3, &chars("bc")));
    assert!(!range_is(&v, 1, 4, &chars("bc")));
    assert!(!range_is(&v, 1, 3, &chars("bd")));
}

#[test]
fn find_char_gives_the_first_or_the_end() {
    let v = chars("key=a=b");
    assert_eq!(find_char(&v, 0, v.len(), '='), 3);
    assert_eq!(find_char(&v, 4, v.len(), '='), 5);
    assert_eq!(find_char(&v, 6, v.len(), '='), 7);
    assert_eq!(find_char(&v, 0, 3, '='), 3);
}

#[test]
fn remove_pattern_agrees_with_std_replace() {
    let cases = [
        ("", "ab"),
        ("ab", "ab"),
        ("xabyabz", "ab"),
        ("aaa", "aa"),
        ("aaaa", "aa"),
        ("ababa", "aba"),
        ("abcab", "abc"),
        ("aab", "ab"),
        ("hello", "xyz"),
        ("hello", ""),
        ("[MÚSICA] oi [MÚSICA DE FUNDO]", "[MÚSICA]"),
        ("short", "much longer than the text"),
    ];
    for (s, p) in cases {
        let got = text(&remove_pattern(&chars(s), &chars(p)));
        let want = if p.is_empty() { s.to_string() } else { s.replace(p, "") };
        assert_eq!(got, want, "{:?} without {:?}", s, p);
    }
}

#[test]
fn numbers_are_written_as_std_writes_them() {
    for n in [0u64, 1, 9, 10, 11, 99, 100, 101, 1000, 4294967295, 4294967296, u64::MAX] {
        let mut s = String::from("n=");
        push_decimal(&mut s, n);
        assert_eq!(s, format!("n={}", n));
    }
    for n in [0i32, 1, -1, 9, -9, 10, -10, 255, -256, i32::MAX, i32::MIN, i32::MIN + 1] {
        let mut s = String::new();
        push_signed_decimal(&mut s, n);
        assert_eq!(s, n.to_string());
    }
}

#[test]
fn exit_codes_are_written_as_std_shows_them() {
    for code in [None, Some(0), Some(1), Some(-1), Some(127), Some(i32::MIN), Some(i32::MAX)] {
        let mut s = String::from("code: ");
        push_code(&mut s, code);
        assert_eq!(s, format!("code: {:?}", code));
    }
}
