use auth_service::services::{LoginId, TwoFaCode};

#[test]
fn six_digit_codes_are_parsed() {
    for raw in ["100000", "123456", "999999", "500000"] {
        let code = TwoFaCode::parse(raw.to_string()).unwrap();
        assert_eq!(code.as_ref(), raw);
    }
}

#[test]
fn codes_outside_the_range_are_rejected() {
    for raw in ["99999", "099999", "000000", "1000000", "0", ""] {
        assert_eq!(
            TwoFaCode::parse(raw.to_string()).unwrap_err(),
            "Invalid code format"
        );
    }
}

#[test]
fn codes_that_are_not_six_digits_are_rejected() {
    for raw in ["12345a", "abcdef", "12 456", "-12345", "+123456", "0123456", "１２３４５６", "12345６"] {
        assert!(TwoFaCode::parse(raw.to_string()).is_err());
    }
}

#[test]
fn code_from_number_writes_six_digits() {
    assert_eq!(TwoFaCode::from_number(100_000).unwrap().as_ref(), "100000");
    assert_eq!(TwoFaCode::from_number(123_456).unwrap().as_ref(), "123456");
    assert_eq!(TwoFaCode::from_number(907_050).unwrap().as_ref(), "907050");
    assert_eq!(TwoFaCode::from_number(999_999).unwrap().as_ref(), "999999");
}

#[test]
fn code_from_number_outside_the_range_is_none() {
    assert!(TwoFaCode::from_number(0).is_none());
    assert!(TwoFaCode::from_number(99_999).is_none());
    assert!(TwoFaCode::from_number(1_000_000).is_none());
    assert!(TwoFaCode::from_number(u32::MAX).is_none());
}

#[test]
fn code_from_number_agrees_with_parse() {
    for number in [100_000u32, 100_001, 234_567, 999_998, 999_999] {
        let made = TwoFaCode::from_number(number).unwrap();
        let parsed = TwoFaCode::parse(number.to_string()).unwrap();
        assert_eq!(made, parsed);
    }
}

#[test]
fn random_code_is_six_digits_in_range() {
    for _ in 0..200 {
        let code = TwoFaCode::default();
        let text = code.as_ref();
        assert_eq!(text.len(), 6);
        let number: u32 = text.parse().unwrap();
        assert!((100_000..=999_999).contains(&number));
        assert!(TwoFaCode::parse(text.to_string()).is_ok());
    }
}

#[test]
fn login_id_from_value_is_hyphenated_lower_case() {
    let id = LoginId::from_value(0xa1a2a3a4b1b2c1c2d1d2d3d4d5d6d7d8);
    assert_eq!(id.as_ref(), "a1a2a3a4-b1b2-c1c2-d1d2-d3d4d5d6d7d8");
    assert_eq!(
        LoginId::from_value(0).as_ref(),
        "00000000-0000-0000-0000-000000000000"
    );
    assert_eq!(
        LoginId::from_value(u128::MAX).as_ref(),
        "ffffffff-ffff-ffff-ffff-ffffffffffff"
    );
    assert_eq!(
        LoginId::from_value(0x0123456789abcdef0123456789abcdef).as_ref(),
        "01234567-89ab-cdef-0123-456789abcdef"
    );
}

#[test]
fn login_id_parse_gives_the_canonical_form() {
    let canonical = "550e8400-e29b-41d4-a716-446655440000";
    for raw in [
        "550e8400-e29b-41d4-a716-446655440000",
        "550E8400-E29B-41D4-A716-446655440000",
        "550e8400e29b41d4a716446655440000",
        "{550e8400-e29b-41d4-a716-446655440000}",
        "urn:uuid:550e8400-e29b-41d4-a716-446655440000",
    ] {
        let id = LoginId::parse(raw.to_string()).unwrap();
        assert_eq!(id.as_ref(), canonical);
    }
}

#[test]
fn login_id_parse_round_trips() {
    let id = LoginId::from_value(0x550e8400e29b41d4a716446655440000);
    let again = LoginId::parse(id.as_ref().to_string()).unwrap();
    assert_eq!(id, again);
    let fresh = LoginId::default();
    assert_eq!(LoginId::parse(fresh.as_ref().to_string()).unwrap(), fresh);
}

#[test]
fn malformed_login_id_is_rejected() {
    for raw in ["", "invalid", "550e8400-e29b-41d4-a716-44665544000", "550e8400-e29b-41d4-a716-44665544000g", "123456"] {
        assert_eq!(
            LoginId::parse(raw.to_string()).unwrap_err(),
            "Invalid Login ID format"
        );
    }
}

#[test]
fn fresh_login_id_is_a_version_4_uuid() {
    for _ in 0..50 {
        let id = LoginId::default();
        let text = id.as_ref();
        assert_eq!(text.len(), 36);
        let chars: Vec<char> = text.chars().collect();
        assert_eq!(chars[8], '-');
        assert_eq!(chars[13], '-');
        assert_eq!(chars[18], '-');
        assert_eq!(chars[23], '-');
        assert_eq!(chars[14], '4');
        assert!(matches!(chars[19], '8' | '9' | 'a' | 'b'));
    }
}

#[test]
fn fresh_login_ids_differ() {
    assert_ne!(LoginId::default(), LoginId::default());
}

#[test]
fn random_codes_vary() {
    let first = TwoFaCode::default();
    let mut other = false;
    for _ in 0..200 {
        if TwoFaCode::default() != first {
            other = true;
        }
    }
    assert!(other);
}
