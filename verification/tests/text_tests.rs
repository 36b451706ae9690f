use rambo::text::{is_whitespace, chars_of, contains_chars, push_decimal, str_equals, to_lowercase, trim};

fn dec(n: u64) -> String {
    let mut s = String::new();
    push_decimal(&mut s, n);
    s
}

#[test]
fn decimal_rendering() {
    assert_eq!(dec(0), "0");
    assert_eq!(dec(7), "7");
    assert_eq!(dec(10), "10");
    assert_eq!(dec(2048), "2048");
    assert_eq!(dec(u64::MAX), u64::MAX.to_string());
    let mut s = String::from("x=");
    push_decimal(&mut s, 305);
    assert_eq!(s, "x=305");
}

#[test]
fn substring_search() {
    let hay = chars_of("firefox-bin");
    assert!(contains_chars(&hay, &chars_of("fox")));
    assert!(contains_chars(&hay, &chars_of("firefox-bin")));
    assert!(contains_chars(&hay, &chars_of("")));
    assert!(!contains_chars(&hay, &chars_of("chrome")));
    assert!(!contains_chars(&chars_of("fi"), &chars_of("fire")));
    assert!(contains_chars(&chars_of("aaab"), &chars_of("aab")));
}

#[test]
fn lowercase_is_std_lowercase() {
    assert_eq!(to_lowercase("FireFox ÄÖ"), "firefox äö");
}

#[test]
fn trim_cuts_white_space() {
    assert_eq!(trim("  a b \n"), "a b");
    assert_eq!(trim("\u{2003}x\u{2003}"), "x");
    assert_eq!(trim("   "), "");
    assert_eq!(trim(""), "");
    assert_eq!(trim("abc"), "abc");
}

#[test]
fn string_equality() {
    assert!(str_equals("cancel", "cancel"));
    assert!(!str_equals("cancel", "cancelled"));
    assert!(!str_equals("Cancel", "cancel"));
    assert!(str_equals("", ""));
}

#[test]
fn chars_in_order() {
    assert_eq!(chars_of("añb"), vec!['a', 'ñ', 'b']);
}

#[test]
fn white_space_set_is_std() {
    let listed = |u: u32| {
        (0x09..=0x0D).contains(&u)
            || u == 0x20
            || u == 0x85
            || u == 0xA0
            || u == 0x1680
            || (0x2000..=0x200A).contains(&u)
            || u == 0x2028
            || u == 0x2029
            || u == 0x202F
            || u == 0x205F
            || u == 0x3000
    };
    for c in (0u32..=0x10FFFF).filter_map(char::from_u32) {
        assert_eq!(c.is_whitespace(), listed(c as u32), "char {:x}", c as u32);
        assert_eq!(is_whitespace(c), listed(c as u32));
    }
}
