use joymapper::text::{
    char_is_space, chars_eq_str, chars_of, contains_chars, is_digit_char, lex_less, lines_chars,
    matches_at, parse_unsigned_chars, push_decimal, replace_chars, split_chars, str_eq, string_of,
    trimmed,
};

fn c(s: &str) -> Vec<char> {
    s.chars().collect()
}

fn pieces(v: Vec<Vec<char>>) -> Vec<String> {
    v.into_iter().map(|p| p.into_iter().collect()).collect()
}

#[test]
fn white_space_is_unicode_white_space() {
    for ch in [' ', '\t', '\n', '\r', '\u{0B}', '\u{0C}', '\u{85}', '\u{A0}', '\u{2003}', '\u{3000}'] {
        assert!(char_is_space(ch), "{:?}", ch);
        assert_eq!(char_is_space(ch), ch.is_whitespace());
    }
    for ch in ['a', '0', '\u{200B}', '\u{FEFF}', '_'] {
        assert!(!char_is_space(ch), "{:?}", ch);
    }
}

#[test]
fn trimming_matches_str_trim() {
    for s in ["  a b  ", "\u{3000}x\u{A0}", "", "   ", "x", "\r\n\tq\n"] {
        let t: String = trimmed(&c(s)).into_iter().collect();
        assert_eq!(t, s.trim());
    }
}

#[test]
fn strings_and_characters() {
    assert_eq!(chars_of("héllo"), c("héllo"));
    assert_eq!(string_of(&c("日本")), "日本");
    assert!(str_eq("abc", "abc"));
    assert!(!str_eq("abc", "abd"));
    assert!(chars_eq_str(&c("ready"), "ready"));
    assert!(!chars_eq_str(&c("ready"), "read"));
    assert!(is_digit_char('7'));
    assert!(!is_digit_char('٣'));
}

#[test]
fn searching() {
    assert!(matches_at(&c("abcd"), &c("cd"), 2));
    assert!(!matches_at(&c("abcd"), &c("cd"), 3));
    assert!(matches_at(&c("abcd"), &c(""), 4));
    assert!(!matches_at(&c("abcd"), &c(""), 5));
    assert!(contains_chars(&c("the task does not exist"), &c("does not exist")));
    assert!(!contains_chars(&c("does not"), &c("does not exist")));
    assert!(contains_chars(&c(""), &c("")));
}

#[test]
fn ordering_by_code_point() {
    assert!(lex_less(&c("Zeta"), &c("alpha")));
    assert!(lex_less(&c("ab"), &c("abc")));
    assert!(!lex_less(&c("abc"), &c("abc")));
    assert!(!lex_less(&c("b"), &c("abc")));
    assert!(lex_less(&c(""), &c("a")));
    // Any two distinct names are ordered one way or the other.
    let names = ["a", "B", "ab", "", "é", "e"];
    for x in names {
        for y in names {
            let (lx, ly) = (lex_less(&c(x), &c(y)), lex_less(&c(y), &c(x)));
            assert_eq!(lx, x < y);
            assert!(x == y || lx != ly);
        }
    }
}

#[test]
fn unsigned_numbers_parse_as_str_parse_does() {
    assert_eq!(parse_unsigned_chars(&c("255"), 255), Some(255));
    assert_eq!(parse_unsigned_chars(&c("256"), 255), None);
    assert_eq!(parse_unsigned_chars(&c("+7"), 255), Some(7));
    assert_eq!(parse_unsigned_chars(&c("007"), 255), Some(7));
    assert_eq!(parse_unsigned_chars(&c("+"), 255), None);
    assert_eq!(parse_unsigned_chars(&c(""), 255), None);
    assert_eq!(parse_unsigned_chars(&c("-1"), 255), None);
    assert_eq!(parse_unsigned_chars(&c("1 "), 255), None);
    assert_eq!(parse_unsigned_chars(&c("65535"), 65535), Some(65535));
    assert_eq!(parse_unsigned_chars(&c("99999999999999999999"), 65535), None);
}

#[test]
fn written_numbers_read_back() {
    for n in [0u128, 5, 10, 99, 100, 65535, 4_000_000_000, u128::MAX] {
        let mut s = String::from("#");
        push_decimal(&mut s, n);
        assert_eq!(s, format!("#{}", n));
        if n <= u32::MAX as u128 {
            assert_eq!(parse_unsigned_chars(&c(&s[1..]), u32::MAX), Some(n as u32));
        }
    }
}

#[test]
fn splitting_matches_str_split() {
    for s in ["ctrl+c", "", "+", "a++b", "x+"] {
        let expected: Vec<String> = s.split('+').map(|p| p.to_string()).collect();
        assert_eq!(pieces(split_chars(&c(s), '+')), expected);
    }
}

#[test]
fn lines_match_str_lines() {
    for s in ["a\nb", "a\r\nb\r\n", "", "\n", "x\n\n", "a\rb\n", "\r", "one"] {
        let expected: Vec<String> = s.lines().map(|l| l.to_string()).collect();
        assert_eq!(pieces(lines_chars(&c(s))), expected, "{:?}", s);
    }
}

#[test]
fn replacing_matches_str_replace() {
    for (s, p, r) in [
        ("DPAD_UP", "DPAD_", "D-pad "),
        ("aaaa", "aa", "b"),
        ("abc", "x", "y"),
        ("a_b_c", "_", " "),
        ("", "a", "b"),
    ] {
        let got: String = replace_chars(&c(s), &c(p), &c(r)).into_iter().collect();
        assert_eq!(got, s.replace(p, r));
    }
}
