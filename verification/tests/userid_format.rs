use authcore::userid::UserId;

#[test]
fn parse_canonical_form() {
    let u = UserId::parse("123e4567-e89b-12d3-a456-426614174000").unwrap();
    assert_eq!(u.value, 0x123e4567_e89b_12d3_a456_426614174000);
}

#[test]
fn parse_accepts_upper_case_digits() {
    let lower = UserId::parse("123e4567-e89b-12d3-a456-426614174000").unwrap();
    let upper = UserId::parse("123E4567-E89B-12D3-A456-426614174000").unwrap();
    assert_eq!(lower, upper);
}

#[test]
fn print_then_parse_round_trips() {
    let u = UserId {
        value: 0xffffffff_ffff_ffff_ffff_ffffffffffff,
    };
    let s = u.to_hyphenated();
    assert_eq!(s, "ffffffff-ffff-ffff-ffff-ffffffffffff");
    assert_eq!(UserId::parse(&s).unwrap(), u);
    let zero = UserId { value: 0 };
    assert_eq!(zero.to_hyphenated(), "00000000-0000-0000-0000-000000000000");
    assert_eq!(UserId::parse(&zero.to_hyphenated()).unwrap(), zero);
}

#[test]
fn parse_then_print_yields_lower_case_canonical_form() {
    let u = UserId::parse("ABCDEF01-2345-6789-ABCD-EF0123456789").unwrap();
    assert_eq!(u.to_hyphenated(), "abcdef01-2345-6789-abcd-ef0123456789");
}

#[test]
fn malformed_identifiers_are_rejected() {
    assert!(UserId::parse("").is_none());
    assert!(UserId::parse("123e4567e89b12d3a456426614174000").is_none());
    assert!(UserId::parse("123e4567-e89b-12d3-a456-42661417400").is_none());
    assert!(UserId::parse("123e4567-e89b-12d3-a456-4266141740000").is_none());
    assert!(UserId::parse("123e4567_e89b_12d3_a456_426614174000").is_none());
    assert!(UserId::parse("123e4567-e89b-12d3-a456-42661417400g").is_none());
    assert!(UserId::parse("g23e4567-e89b-12d3-a456-426614174000").is_none());
}
