use nekofetch::text::{
    begins_with, decimal_chars, decimal_string, found_at, from_chars, has_within, lines_of,
    lower_string, same_text, split_chars, strip_chars, to_chars, upper_string, without_all,
    words_of, CharClass,
};

fn chars(s: &str) -> Vec<char> {
    s.chars().collect()
}

fn strings(pieces: &[Vec<char>]) -> Vec<String> {
    pieces.iter().map(|p| p.iter().collect::<String>()).collect()
}

#[test]
fn to_chars_keeps_every_character() {
    assert_eq!(to_chars("héllo ⠀x"), vec!['h', 'é', 'l', 'l', 'o', ' ', '⠀', 'x']);
    assert_eq!(to_chars(""), Vec::<char>::new());
}

#[test]
fn from_chars_is_the_inverse_of_to_chars() {
    let text = "Résolution: 2560 x 1440\n";
    assert_eq!(from_chars(&to_chars(text)), text);
    assert_eq!(from_chars(&[]), "");
}

#[test]
fn same_text_compares_whole_texts() {
    assert!(same_text("os", "os"));
    assert!(!same_text("os", "osx"));
    assert!(!same_text("wm", "de"));
    assert!(same_text("", ""));
    assert!(!same_text("", " "));
}

#[test]
fn char_class_space_is_unicode_white_space() {
    let mut code: u32 = 0;
    while code <= 0x3100 {
        if let Some(c) = char::from_u32(code) {
            assert_eq!(CharClass::Space.holds(c), c.is_whitespace(), "U+{:04X}", code);
        }
        code += 1;
    }
    assert!(CharClass::Is('"').holds('"'));
    assert!(!CharClass::Is('"').holds('\''));
}

#[test]
fn strip_chars_trims_like_std() {
    for text in ["  a b \t\n", "", "   ", "x", "\u{3000}wide\u{a0}", " a", "a ", "\r\n"] {
        let got: String = strip_chars(&chars(text), CharClass::Space).iter().collect();
        assert_eq!(got, text.trim(), "{:?}", text);
    }
}

#[test]
fn strip_chars_removes_quotes_at_both_ends_only() {
    for text in ["\"0.1.0\"", "\"\"a\"b\"\"", "plain", "\"", ""] {
        let got: String = strip_chars(&chars(text), CharClass::Is('"')).iter().collect();
        assert_eq!(got, text.trim_matches('"'), "{:?}", text);
    }
}

#[test]
fn split_chars_splits_like_std() {
    for text in ["a=b=c", "", "=", "==", "a=", "=a", "no separator"] {
        let expected: Vec<String> = text.split('=').map(|p| p.to_string()).collect();
        assert_eq!(strings(&split_chars(&chars(text), CharClass::Is('='))), expected, "{:?}", text);
    }
}

#[test]
fn split_chars_of_empty_text_is_one_empty_piece() {
    assert_eq!(split_chars(&[], CharClass::Is(',')), vec![Vec::<char>::new()]);
}

#[test]
fn words_of_splits_like_split_whitespace() {
    for text in ["  dimensions:    1920x1080 pixels (508x285 millimeters)", "", "   ", "one", "a\tb\nc"] {
        let expected: Vec<String> = text.split_whitespace().map(|p| p.to_string()).collect();
        assert_eq!(strings(&words_of(&chars(text))), expected, "{:?}", text);
    }
}

#[test]
fn lines_of_splits_like_std() {
    for text in [
        "",
        "one",
        "one\n",
        "one\ntwo",
        "one\r\ntwo\r\n",
        "one\n\ntwo",
        "\n",
        "\n\n",
        "tail\r",
        "a\rb\n",
        "a\r\r\nb",
    ] {
        let expected: Vec<String> = text.lines().map(|p| p.to_string()).collect();
        assert_eq!(strings(&lines_of(&chars(text))), expected, "{:?}", text);
    }
}

#[test]
fn found_at_checks_one_place() {
    let text = chars("VGA compatible controller");
    assert!(found_at(&text, &chars("VGA"), 0));
    assert!(found_at(&text, &chars("compatible"), 4));
    assert!(!found_at(&text, &chars("compatible"), 3));
    assert!(!found_at(&text, &chars("controller!"), 15));
    assert!(found_at(&text, &chars(""), 25));
    assert!(!found_at(&text, &chars(""), 26));
}

#[test]
fn begins_with_and_has_within_agree_with_std() {
    let cases = [
        ("Resolution: 1x1", "Resolution:"),
        (" Resolution: 1x1", "Resolution:"),
        ("abc", ""),
        ("", ""),
        ("", "a"),
        ("aab", "ab"),
        ("xdimensions:y", "dimensions:"),
        ("dimension", "dimensions:"),
    ];
    for (text, pat) in cases {
        assert_eq!(begins_with(&chars(text), &chars(pat)), text.starts_with(pat), "{:?} {:?}", text, pat);
        assert_eq!(has_within(&chars(text), &chars(pat)), text.contains(pat), "{:?} {:?}", text, pat);
    }
}

#[test]
fn without_all_removes_like_replace_with_nothing() {
    let cases = [
        ("Resolution: 2560 x 1440", "Resolution:"),
        ("aaa", "aa"),
        ("abab", "ab"),
        ("xaxbx", "x"),
        ("nothing here", "zz"),
        ("", "a"),
        ("keep", ""),
    ];
    for (text, pat) in cases {
        let got: String = without_all(&chars(text), &chars(pat)).iter().collect();
        assert_eq!(got, text.replace(pat, ""), "{:?} {:?}", text, pat);
    }
}

#[test]
fn decimal_string_writes_base_ten() {
    for n in [0u64, 7, 9, 10, 11, 99, 100, 1024, 86400, 18446744073709551615] {
        assert_eq!(decimal_string(n), n.to_string());
    }
    assert_eq!(decimal_chars(305), vec!['3', '0', '5']);
}

#[test]
fn upper_string_changes_ascii_letters_only() {
    assert_eq!(upper_string("WM Theme"), "WM THEME");
    assert_eq!(upper_string("os"), "OS");
    assert_eq!(upper_string("a-z_0{`"), "A-Z_0{`");
    assert_eq!(upper_string("é"), "é");
}

#[test]
fn lower_string_changes_ascii_letters_only() {
    assert_eq!(lower_string("WM Theme"), "wm theme");
    assert_eq!(lower_string("CPU"), "cpu");
    assert_eq!(lower_string("A-Z_0[@"), "a-z_0[@");
    assert_eq!(lower_string("É"), "É");
}
