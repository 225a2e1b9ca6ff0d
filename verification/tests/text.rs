use drone::text::{
    belongs, digit_to_char, fields, find, is_whitespace, lines, parse_u32, push_decimal,
    push_signed, starts_with, string_of, to_chars, trim, CharClass,
};

fn strings(items: &[&str]) -> Vec<String> {
    items.iter().map(|item| item.to_string()).collect()
}

fn chars(text: &str) -> Vec<char> {
    text.chars().collect()
}

#[test]
fn lines_end_at_line_feeds() {
    assert_eq!(lines("a\nb\nc"), strings(&["a", "b", "c"]));
    assert_eq!(lines("a\nb\n"), strings(&["a", "b"]));
    assert_eq!(lines("a\n\nb"), strings(&["a", "", "b"]));
    assert_eq!(lines("\n"), strings(&[""]));
    assert_eq!(lines(""), Vec::<String>::new());
}

#[test]
fn lines_drop_the_carriage_return_before_a_line_feed() {
    assert_eq!(lines("a\r\nb\r\n"), strings(&["a", "b"]));
    assert_eq!(lines("a\r\r\nb"), strings(&["a\r", "b"]));
    assert_eq!(lines("a\rb\n"), strings(&["a\rb"]));
    assert_eq!(lines("a\nb\r"), strings(&["a", "b\r"]));
}

#[test]
fn lines_agree_with_the_standard_library() {
    for text in ["", "x", "x\n", "\r\n", "one\r\ntwo\nthree", "\n\n\n", "a\r", "é\nü\r\n"] {
        let expected: Vec<String> = text.lines().map(|line| line.to_string()).collect();
        assert_eq!(lines(text), expected, "{:?}", text);
    }
}

#[test]
fn fields_are_the_runs_between_white_space() {
    assert_eq!(fields(".flash   1024\t0x8000000"), strings(&[".flash", "1024", "0x8000000"]));
    assert_eq!(fields("  lead and trail  "), strings(&["lead", "and", "trail"]));
    assert_eq!(fields("one"), strings(&["one"]));
    assert_eq!(fields(" \t "), Vec::<String>::new());
    assert_eq!(fields(""), Vec::<String>::new());
    assert_eq!(fields("a\u{a0}b\u{3000}c\u{2003}d"), strings(&["a", "b", "c", "d"]));
}

#[test]
fn fields_agree_with_the_standard_library() {
    for text in ["", " ", "a b", "\ta\u{85}b\u{1680}c ", "x\u{200b}y", "a\u{2028}b\u{2029}c\u{202f}d\u{205f}e"] {
        let expected: Vec<String> = text.split_whitespace().map(|field| field.to_string()).collect();
        assert_eq!(fields(text), expected, "{:?}", text);
    }
}

#[test]
fn white_space_is_what_the_standard_library_calls_so() {
    for code in 0..0x3100u32 {
        if let Some(c) = char::from_u32(code) {
            assert_eq!(is_whitespace(c), c.is_whitespace(), "{:#x}", code);
        }
    }
}

#[test]
fn numbers_are_read_as_the_standard_library_reads_them() {
    for text in [
        "0", "7", "1024", "0042", "+5", "+", "", "-5", "-0", "12a", "a12", " 12", "12 ", "4294967295",
        "4294967296", "99999999999999999999999999", "++1", "1+", "１２", "0x10",
    ] {
        assert_eq!(parse_u32(text), text.parse::<u32>().ok(), "{:?}", text);
    }
}

#[test]
fn numbers_have_exact_values() {
    assert_eq!(parse_u32("1024"), Some(1024));
    assert_eq!(parse_u32("+256"), Some(256));
    assert_eq!(parse_u32("4294967295"), Some(u32::MAX));
    assert_eq!(parse_u32("4294967296"), None);
    assert_eq!(parse_u32("size"), None);
}

#[test]
fn decimal_text_has_no_leading_zeros() {
    for n in [0u64, 9, 10, 99, 100, 1024, 4294967295, u64::MAX] {
        let mut text = String::from("n=");
        push_decimal(&mut text, n);
        assert_eq!(text, format!("n={}", n));
    }
}

#[test]
fn signed_decimal_text_leads_with_the_sign() {
    for n in [0i32, 1, -1, 101, -101, i32::MAX, i32::MIN] {
        let mut text = String::new();
        push_signed(&mut text, n);
        assert_eq!(text, format!("{}", n));
    }
}

#[test]
fn decimal_text_reads_back_as_the_number() {
    for n in [0u32, 1, 10, 256, 1024, 65535, u32::MAX] {
        let mut text = String::new();
        push_decimal(&mut text, n as u64);
        assert_eq!(parse_u32(&text), Some(n));
    }
}

#[test]
fn trim_removes_white_space_at_both_ends() {
    assert_eq!(trim("  /home/me/.rustup \n"), "/home/me/.rustup");
    assert_eq!(trim("a b"), "a b");
    assert_eq!(trim(" \t\n"), "");
    assert_eq!(trim(""), "");
    for text in ["", " x ", "\u{a0}y\u{3000}", "in side", "\n\n"] {
        assert_eq!(trim(text), text.trim(), "{:?}", text);
    }
}

#[test]
fn find_stops_on_the_first_character_of_the_class() {
    let text = chars("ab cd\nef");
    assert_eq!(find(&text, 0, CharClass::Space), 2);
    assert_eq!(find(&text, 2, CharClass::Word), 3);
    assert_eq!(find(&text, 0, CharClass::Newline), 5);
    assert_eq!(find(&text, 6, CharClass::Newline), 8);
    assert_eq!(find(&text, 8, CharClass::Word), 8);
}

#[test]
fn characters_and_strings_convert_both_ways() {
    let text = "héllo wörld";
    let all = to_chars(text);
    assert_eq!(all, chars(text));
    assert_eq!(string_of(&all, 0, all.len()), text);
    assert_eq!(string_of(&all, 6, 11), "wörld");
    assert_eq!(string_of(&all, 3, 3), "");
}

#[test]
fn starts_with_compares_the_prefix() {
    assert!(starts_with(&chars("commit-hash: abc"), &chars("commit-hash: ")));
    assert!(starts_with(&chars("abc"), &chars("")));
    assert!(starts_with(&chars("abc"), &chars("abc")));
    assert!(!starts_with(&chars("ab"), &chars("abc")));
    assert!(!starts_with(&chars("commit-date: x"), &chars("commit-hash: ")));
}

#[test]
fn characters_belong_to_their_classes() {
    assert!(belongs('\n', CharClass::Newline));
    assert!(!belongs('\r', CharClass::Newline));
    assert!(belongs('\n', CharClass::Space));
    assert!(belongs(' ', CharClass::Space));
    assert!(!belongs('x', CharClass::Space));
    assert!(belongs('x', CharClass::Word));
    assert!(!belongs('\t', CharClass::Word));
}

#[test]
fn digits_have_their_characters() {
    for digit in 0..10u64 {
        assert_eq!(digit_to_char(digit), char::from_digit(digit as u32, 10).unwrap());
    }
}
