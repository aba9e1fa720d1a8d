use codex_telegram::text::{
    concatenate, decimal_i64, decimal_u64, decimal_usize, hex_digit, hex_digit_char, hex_encode, join,
    lower_char, parse_usize, same_text, split_whitespace, to_ascii_lowercase, trim, white_space,
};

fn samples() -> Vec<String> {
    let pieces = [
        "", " ", "\t", "\n", "a", "Ab", "ÀÉ", "\u{a0}", "\u{3000}", "x y", "  /CX  1 ", "\u{200b}",
        "\u{85}z\u{2028}", "é\u{1680}è", "\u{feff}", "0", "+7", "日本 語",
    ];
    let mut out = Vec::new();
    for a in pieces {
        for b in pieces {
            for c in pieces {
                out.push(format!("{a}{b}{c}"));
            }
        }
    }
    out
}

#[test]
fn character_classes_agree_with_std_on_every_character() {
    for code in 0..=0x10ffffu32 {
        if let Some(c) = char::from_u32(code) {
            assert_eq!(white_space(c), c.is_whitespace(), "{code:x}");
            assert_eq!(lower_char(c), c.to_ascii_lowercase(), "{code:x}");
            assert_eq!(hex_digit_char(c), c.is_ascii_hexdigit(), "{code:x}");
        }
    }
}

#[test]
fn trimming_and_case_agree_with_std() {
    for text in samples() {
        assert_eq!(trim(&text), text.trim());
        assert_eq!(to_ascii_lowercase(&text), text.to_ascii_lowercase());
    }
}

#[test]
fn words_agree_with_std() {
    for text in samples() {
        let expected: Vec<String> = text.split_whitespace().map(str::to_string).collect();
        let words = split_whitespace(&text);
        assert_eq!(words, expected);
        assert_eq!(join(&words, 0, " "), expected.join(" "));
        if words.len() > 1 {
            assert_eq!(join(&words, 1, ", "), expected[1..].join(", "));
        }
    }
}

#[test]
fn numbers_agree_with_std() {
    let texts = [
        "", "+", "-", "0", "00", "007", "1", "+1", "++1", "+-1", "-1", "-0", "12a", "a", " 1", "1 ", "1_0",
        "18446744073709551615", "18446744073709551616", "+18446744073709551615",
        "000000000000000000000000000018446744073709551615", "99999999999999999999999999", "٣", "1.0",
    ];
    for text in texts {
        assert_eq!(parse_usize(text), text.parse::<usize>().ok(), "{text}");
    }
}

#[test]
fn decimal_forms_agree_with_std() {
    for n in [i64::MIN, i64::MIN + 1, -1001, -10, -9, -1, 0, 1, 9, 10, 99, 100, 1234567890, i64::MAX] {
        assert_eq!(decimal_i64(n), n.to_string());
    }
    for n in [0, 1, 9, 10, 11, 109, usize::MAX] {
        assert_eq!(decimal_usize(n), n.to_string());
    }
    assert_eq!(decimal_u64(u64::MAX), u64::MAX.to_string());
}

#[test]
fn hexadecimal_digits() {
    let digits: String = (0..16).map(hex_digit).collect();
    assert_eq!(digits, "0123456789abcdef");
    assert_eq!(hex_encode("bot-a"), "626f742d61");
    assert_eq!(hex_encode("é€😀"), "c3a9e282acf09f9880");
    assert_eq!(hex_encode(""), "");
}

#[test]
fn texts_are_compared_and_put_together() {
    assert!(same_text("abc", "abc"));
    assert!(!same_text("abc", "abC"));
    assert!(!same_text("abc", "ab"));
    assert_eq!(concatenate("ab", "c"), "abc");
}
