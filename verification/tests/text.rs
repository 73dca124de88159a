use sweem_tui::text::{
    blank, concat2, concat3, decimal, decimal_wide, first_chars, fit, repeated, signed_decimal,
    two_digit,
};

#[test]
fn blank_is_what_trimming_empties() {
    for text in ["", " ", "\t\n", " \u{a0}\u{3000} ", "a", " a ", "\u{200b}", "_"] {
        assert_eq!(blank(text), text.trim().is_empty());
    }
    assert!(blank("   "));
    assert!(!blank(" x "));
}

#[test]
fn decimal_writes_numbers() {
    for n in [0u64, 1, 9, 10, 11, 99, 100, 12345, u64::MAX] {
        assert_eq!(decimal(n), n.to_string());
    }
    assert_eq!(decimal(407), "407");
    assert_eq!(decimal_wide(u128::MAX), u128::MAX.to_string());
}

#[test]
fn signed_decimal_writes_the_sign() {
    for n in [0i64, 5, -5, -10, i64::MAX, i64::MIN] {
        assert_eq!(signed_decimal(n), n.to_string());
    }
    assert_eq!(signed_decimal(-2024), "-2024");
}

#[test]
fn two_digit_pads_with_zero() {
    assert_eq!(two_digit(7), "07");
    assert_eq!(two_digit(14), "14");
    assert_eq!(two_digit(0), "00");
    assert_eq!(two_digit(99), "99");
}

#[test]
fn concat_joins_in_order() {
    assert_eq!(concat2("ab", "cd"), "abcd");
    assert_eq!(concat3("a", "", "é"), "aé");
}

#[test]
fn first_chars_counts_characters() {
    assert_eq!(first_chars("héllo", 2), "hé");
    assert_eq!(first_chars("héllo", 0), "");
    assert_eq!(first_chars("hé", 5), "hé");
}

#[test]
fn fit_cuts_and_fills() {
    assert_eq!(fit("Apollo", 10), "Apollo    ");
    assert_eq!(fit("Apollo", 6), "Apollo");
    assert_eq!(fit("Apollo", 4), "Apo…");
    assert_eq!(fit("Apollo", 1), "…");
    assert_eq!(fit("Apollo", 0), "");
    assert_eq!(fit("", 3), "   ");
    assert_eq!(fit("Überraschung", 5), "Über…");
    assert_eq!(fit("A rather long project name", 20), format!("{}…", "A rather long proje"));
    assert_eq!(fit("Short", 20), format!("{:20}", "Short"));
}

#[test]
fn repeated_repeats() {
    assert_eq!(repeated('*', 4), "****");
    assert_eq!(repeated('█', 2), "██");
    assert_eq!(repeated('x', 0), "");
}
