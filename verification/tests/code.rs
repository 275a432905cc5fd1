use shortlink::code::{generate_short_code, is_short_code_text, SHORT_CODE_LEN};

#[test]
fn short_code_length_is_seven() {
    assert_eq!(SHORT_CODE_LEN, 7);
}

#[test]
fn generated_codes_are_seven_alphanumerics() {
    for _ in 0..2000 {
        let code = generate_short_code();
        assert_eq!(code.chars().count(), 7);
        assert_eq!(code.len(), 7);
        assert!(code.chars().all(|c| c.is_ascii_alphanumeric()), "{}", code);
        assert!(is_short_code_text(&code));
    }
}

#[test]
fn generated_codes_use_letters_of_both_cases_and_digits() {
    let mut upper = false;
    let mut lower = false;
    let mut digit = false;
    for _ in 0..200 {
        for c in generate_short_code().chars() {
            upper |= c.is_ascii_uppercase();
            lower |= c.is_ascii_lowercase();
            digit |= c.is_ascii_digit();
        }
    }
    assert!(upper && lower && digit);
}

#[test]
fn generated_codes_vary() {
    let first = generate_short_code();
    let second = generate_short_code();
    let third = generate_short_code();
    assert!(first != second || second != third);
}

#[test]
fn short_code_check_accepts_seven_alphanumerics() {
    assert!(is_short_code_text("abcdefg"));
    assert!(is_short_code_text("ABCDEFG"));
    assert!(is_short_code_text("0123456"));
    assert!(is_short_code_text("aZ09bY1"));
    assert!(is_short_code_text("zzzzzzz"));
}

#[test]
fn short_code_check_rejects_other_lengths() {
    assert!(!is_short_code_text(""));
    assert!(!is_short_code_text("abcdef"));
    assert!(!is_short_code_text("abcdefgh"));
    assert!(!is_short_code_text("doesnotexist"));
}

#[test]
fn short_code_check_rejects_other_characters() {
    assert!(!is_short_code_text("abcdef/"));
    assert!(!is_short_code_text("abc def"));
    assert!(!is_short_code_text("abc-def"));
    assert!(!is_short_code_text("abc_def"));
    assert!(!is_short_code_text("abcdef:"));
    assert!(!is_short_code_text("abcdef@"));
    assert!(!is_short_code_text("abcdef["));
    assert!(!is_short_code_text("abcdef`"));
    assert!(!is_short_code_text("abcdef{"));
    assert!(!is_short_code_text("abcdef\u{e9}"));
}
