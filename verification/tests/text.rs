use win11_clipboard_history::text::{decimal, is_space, lower, matches_ignoring_case, trim};

#[test]
fn trim_agrees_with_std() {
    let samples = [
        "",
        " ",
        "abc",
        "  abc",
        "abc  ",
        " \t a b \r\n",
        "\u{2003}x\u{2003}",
        "\u{85}\u{1680}y\u{2028}\u{2029}\u{202f}\u{205f}",
        "\u{200b}z",
        "é ",
    ];
    for s in samples {
        assert_eq!(trim(s), s.trim());
    }
}

#[test]
fn is_space_agrees_with_std() {
    let mut code: u32 = 0;
    while code < 0x11_0000 {
        if let Some(c) = char::from_u32(code) {
            assert_eq!(is_space(c), c.is_whitespace());
        }
        code += 1;
    }
}

#[test]
fn lower_agrees_with_std_on_ascii() {
    for b in 0u8..128 {
        let c = b as char;
        assert_eq!(lower(c), c.to_ascii_lowercase());
    }
    assert_eq!(lower('É'), 'É');
}

#[test]
fn matching_ignores_case_only() {
    assert!(matches_ignoring_case("WAYLAND", "wayland"));
    assert!(matches_ignoring_case("", ""));
    assert!(!matches_ignoring_case("wayland ", "wayland"));
    assert!(!matches_ignoring_case("waylan", "wayland"));
    assert!(!matches_ignoring_case("x12", "x11"));
}

#[test]
fn decimal_agrees_with_std() {
    for n in [0u64, 1, 9, 10, 11, 99, 100, 12345, 9_999_999_999, u64::MAX] {
        assert_eq!(decimal(n), n.to_string());
    }
    assert_eq!(decimal(18446744073709551615), "18446744073709551615");
}

#[test]
fn ascii_folding_agrees_with_unicode_on_the_session_words() {
    let letters: Vec<char> = "waylandx11".chars().collect();
    let mut code: u32 = 0;
    while code < 0x11_0000 {
        if let Some(c) = char::from_u32(code) {
            let unicode: String = c.to_lowercase().collect();
            for l in &letters {
                assert_eq!(lower(c) == *l, unicode == l.to_string());
            }
        }
        code += 1;
    }
}
