use qapish::identity::{
    demo_org_id, identifier_or_random, new_identifier, parse_identifier, DEMO_ORG_ID,
};

#[test]
fn written_identifier_is_read_as_its_bits() {
    assert_eq!(
        parse_identifier("550e8400-e29b-41d4-a716-446655440000"),
        Some(0x550e8400_e29b_41d4_a716_446655440000)
    );
    assert_eq!(
        parse_identifier("a1a2a3a4b1b2c1c2d1d2d3d4d5d6d7d8"),
        Some(0xa1a2a3a4_b1b2_c1c2_d1d2_d3d4d5d6d7d8)
    );
    assert_eq!(parse_identifier("00000000-0000-0000-0000-000000000000"), Some(0));
}

#[test]
fn text_that_is_no_identifier_is_refused() {
    for text in ["", "550e8400", "550e8400-e29b-41d4-a716-44665544000g", "not an identifier"] {
        assert_eq!(parse_identifier(text), None, "{:?}", text);
    }
}

#[test]
fn demo_organization_is_the_written_one() {
    assert_eq!(DEMO_ORG_ID, "550e8400-e29b-41d4-a716-446655440000");
    assert_eq!(demo_org_id(), 0x550e8400_e29b_41d4_a716_446655440000);
    assert_eq!(demo_org_id(), demo_org_id());
}

#[test]
fn identifier_that_was_read_is_kept() {
    assert_eq!(identifier_or_random(Some(17)), 17);
    assert_eq!(identifier_or_random(Some(0)), 0);
}

#[test]
fn random_identifier_carries_its_marks() {
    let mask = 0x0000_0000_0000_f000_c000_0000_0000_0000u128;
    let marks = 0x0000_0000_0000_4000_8000_0000_0000_0000u128;
    let first = identifier_or_random(None);
    let second = identifier_or_random(None);
    assert_eq!(first & mask, marks);
    assert_eq!(second & mask, marks);
    assert_ne!(first, second);
}

#[test]
fn fresh_identifiers_differ_and_carry_their_marks() {
    let mask = 0x0000_0000_0000_f000_c000_0000_0000_0000u128;
    let marks = 0x0000_0000_0000_4000_8000_0000_0000_0000u128;
    let first = new_identifier();
    let second = new_identifier();
    assert_ne!(first, second);
    assert_eq!(first & mask, marks);
    assert_eq!(second & mask, marks);
}
