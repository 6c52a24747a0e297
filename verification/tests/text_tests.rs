use butler::text::{decimal_string, push_decimal, replace_char};

#[test]
fn decimal_numerals() {
    assert_eq!(decimal_string(0), "0");
    assert_eq!(decimal_string(7), "7");
    assert_eq!(decimal_string(10), "10");
    assert_eq!(decimal_string(1234567890), "1234567890");
    assert_eq!(decimal_string(u64::MAX), u64::MAX.to_string());
}

#[test]
fn push_decimal_appends() {
    let mut s = "n=".to_string();
    push_decimal(&mut s, 305);
    assert_eq!(s, "n=305");
}

#[test]
fn replace_char_every_occurrence() {
    assert_eq!(replace_char("RANKED_SOLO_5x5", '_', ' '), "RANKED SOLO 5x5");
    assert_eq!(replace_char("", '_', ' '), "");
    assert_eq!(replace_char("__é_", '_', '-'), "--é-");
    assert_eq!(replace_char("none", '_', ' '), "none");
}
