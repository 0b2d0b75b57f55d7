use auth_service::domain::{AuthApiError, Email, Password};

#[test]
fn empty_string_is_rejected() {
    assert!(Password::parse(String::new()).is_err());
}

#[test]
fn string_less_than_8_characters_is_rejected() {
    assert!(Password::parse(String::from("1234567")).is_err());
}

#[test]
fn valid_passwords_are_parsed_successfully() {
    for length in 8..30 {
        let password = "x".repeat(length);
        assert!(Password::parse(password).is_ok());
    }
}

#[test]
fn password_length_bounds_are_inclusive() {
    assert!(Password::parse("a".repeat(7)).is_err());
    assert!(Password::parse("a".repeat(8)).is_ok());
    assert!(Password::parse("a".repeat(256)).is_ok());
    assert!(Password::parse("a".repeat(257)).is_err());
}

#[test]
fn password_length_counts_characters_not_bytes() {
    // Eight characters of two bytes each.
    assert!(Password::parse("é".repeat(8)).is_ok());
    // Seven characters, fourteen bytes.
    assert!(Password::parse("é".repeat(7)).is_err());
    // 256 characters, 512 bytes.
    assert!(Password::parse("é".repeat(256)).is_ok());
    assert!(Password::parse("é".repeat(257)).is_err());
}

#[test]
fn password_keeps_its_text() {
    let password = Password::parse(String::from("plsdonthackme")).unwrap();
    assert_eq!(password.as_ref(), "plsdonthackme");
}

#[test]
fn password_error_message() {
    assert_eq!(
        Password::parse(String::from("short")).unwrap_err(),
        "Failed to parse string to a Password type"
    );
}

#[test]
fn password_equality_is_by_text() {
    let a = Password::parse(String::from("password1")).unwrap();
    let b = Password::parse(String::from("password1")).unwrap();
    let c = Password::parse(String::from("Password1")).unwrap();
    assert_eq!(a, b);
    assert_ne!(a, c);
    assert_eq!(a.clone(), a);
}

#[test]
fn valid_email_is_parsed_and_keeps_its_text() {
    let email = Email::parse(String::from("johndoe@mail.com")).unwrap();
    assert_eq!(email.as_ref(), "johndoe@mail.com");
}

#[test]
fn email_parse_round_trips() {
    for raw in ["a@x.com", "test_user@email.com", "weirder-email@here.and.there.com"] {
        let once = Email::parse(raw.to_string()).unwrap();
        let twice = Email::parse(once.as_ref().to_string()).unwrap();
        assert_eq!(once.as_ref(), raw);
        assert_eq!(twice.as_ref(), raw);
        assert_eq!(once, twice);
    }
}

#[test]
fn email_without_at_is_rejected() {
    assert!(Email::parse(String::from("invalidemail")).is_err());
    assert!(Email::parse(String::from("invalid_email")).is_err());
}

#[test]
fn empty_email_is_rejected() {
    assert!(Email::parse(String::new()).is_err());
}

#[test]
fn email_without_local_part_or_domain_is_rejected() {
    assert!(Email::parse(String::from("@x.com")).is_err());
    assert!(Email::parse(String::from("a@")).is_err());
    assert!(Email::parse(String::from("a b@x.com")).is_err());
}

#[test]
fn email_error_message_names_the_input() {
    assert_eq!(
        Email::parse(String::from("invalidemail")).unwrap_err(),
        "invalidemail is not a valid email."
    );
}

#[test]
fn email_equality_is_case_sensitive() {
    let lower = Email::parse(String::from("a@x.com")).unwrap();
    let upper = Email::parse(String::from("A@x.com")).unwrap();
    assert_ne!(lower, upper);
    assert_eq!(lower, lower.clone());
}

#[test]
fn every_error_has_its_status_and_message() {
    let expected = [
        (AuthApiError::UserAlreadyExists, 409, "User already exists"),
        (AuthApiError::InvalidCredentials, 400, "Invalid credentials"),
        (AuthApiError::MissingToken, 400, "Missing auth token"),
        (AuthApiError::InvalidToken, 401, "Invalid auth token"),
        (AuthApiError::IncorrectCredentials, 401, "Incorrect credentials"),
        (AuthApiError::UnexpectedError, 500, "Unexpected error"),
    ];
    for (error, status, message) in expected {
        assert_eq!(error.status_code(), status);
        assert_eq!(error.error_message(), message);
        let (response_status, body) = error.into_response();
        assert_eq!(response_status, status);
        assert_eq!(body.error, message);
    }
}

#[test]
fn email_whose_domain_has_no_dot_is_rejected() {
    for raw in ["user@localhost", "a@b", "user.name@localhost", "email@[2001:dB8::1]"] {
        assert_eq!(
            Email::parse(raw.to_string()).unwrap_err(),
            format!("{} is not a valid email.", raw)
        );
    }
}

#[test]
fn email_whose_domain_has_a_dot_is_accepted() {
    for raw in ["user@localhost.localdomain", "a@b.c", "email@here.com", "email@[127.0.0.1]"] {
        assert_eq!(Email::parse(raw.to_string()).unwrap().as_ref(), raw);
    }
}

#[test]
fn dot_in_the_local_part_alone_does_not_count() {
    assert!(Email::parse(String::from("first.last@localhost")).is_err());
    assert!(Email::parse(String::from("first.last@example.com")).is_ok());
}
