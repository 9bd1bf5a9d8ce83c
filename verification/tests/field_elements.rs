use cairo_run_adapter::decimal::u64_to_decimal;
use cairo_run_adapter::field::FieldElement;

fn prime_bytes() -> [u8; 32] {
    let mut bytes = [0u8; 32];
    bytes[0] = 0x08;
    bytes[7] = 0x11;
    bytes[31] = 0x01;
    bytes
}

#[test]
fn integers_render_in_decimal() {
    assert_eq!(u64_to_decimal(0), "0");
    assert_eq!(u64_to_decimal(9), "9");
    assert_eq!(u64_to_decimal(10), "10");
    assert_eq!(u64_to_decimal(1203), "1203");
    assert_eq!(u64_to_decimal(u64::MAX), "18446744073709551615");
}

#[test]
fn small_elements_have_the_expected_bytes() {
    assert_eq!(FieldElement::zero().to_bytes_be(), [0u8; 32]);
    let mut expected = [0u8; 32];
    expected[24..].copy_from_slice(&0x0102030405060708u64.to_be_bytes());
    assert_eq!(FieldElement::from_u64(0x0102030405060708).to_bytes_be(), expected);
    assert_eq!(FieldElement::from_u64(0x0102030405060708).to_decimal(), "72623859790382856");
}

#[test]
fn bytes_below_the_prime_are_elements() {
    let mut below = prime_bytes();
    below[31] = 0;
    let element = FieldElement::from_bytes_be(below).expect("p - 1 is an element");
    assert_eq!(element.to_bytes_be(), below);
    assert_eq!(
        element.to_decimal(),
        "3618502788666131213697322783095070105623107215331596699973092056135872020480"
    );
    assert_eq!(FieldElement::from_bytes_be([0u8; 32]), Some(FieldElement::zero()));
}

#[test]
fn bytes_from_the_prime_on_are_no_elements() {
    assert_eq!(FieldElement::from_bytes_be(prime_bytes()), None);
    assert_eq!(FieldElement::from_bytes_be([0xff; 32]), None);
    let mut above = prime_bytes();
    above[20] = 1;
    above[31] = 0;
    assert_eq!(FieldElement::from_bytes_be(above), None);
}

#[test]
fn strict_reading_tells_text_from_zero() {
    assert_eq!(FieldElement::from_decimal("0"), Some(FieldElement::zero()));
    assert_eq!(FieldElement::from_decimal("42"), Some(FieldElement::from_u64(42)));
    assert_eq!(FieldElement::from_decimal("forty-two"), None);
    assert_eq!(FieldElement::from_decimal(""), None);
    assert_eq!(FieldElement::from_decimal("-"), None);
}
