use auth_service::domain::{Email, Password, User, UserStore, UserStoreError};
use auth_service::services::{
    BannedTokenStore, BannedTokens, LoginId, TwoFaCode, TwoFaCodeError, TwoFaCodeStore,
    TwoFaCodes, UserDataStore,
};

#[test]
fn test_add_token() {
    let mut store = BannedTokens::default();
    let token = "test_token".to_owned();

    let result = store.add_token(token.clone());

    assert!(result.is_ok());
    assert!(store.contains_token(&token).unwrap());
}

#[test]
fn test_contains_token() {
    let mut store = BannedTokens::default();
    let token = "test_token".to_owned();
    store.add_token(token.clone()).unwrap();

    let result = store.contains_token(&token);

    assert!(result.unwrap());
}

#[test]
fn token_that_was_not_added_is_not_contained() {
    let mut store = BannedTokens::default();
    assert_eq!(store.contains_token("test_token"), Ok(false));
    store.add_token("other".to_owned()).unwrap();
    assert_eq!(store.contains_token("test_token"), Ok(false));
}

#[test]
fn revoking_twice_is_a_no_op_success() {
    let mut store = BannedTokens::new();
    assert!(store.add_token("t".to_owned()).is_ok());
    assert!(store.add_token("t".to_owned()).is_ok());
    assert_eq!(store.contains_token("t"), Ok(true));
}

#[test]
fn revoked_token_stays_revoked_after_other_revocations() {
    let mut store = BannedTokens::new();
    store.add_token("first".to_owned()).unwrap();
    for i in 0..20 {
        store.add_token(format!("token-{}", i)).unwrap();
        assert_eq!(store.contains_token("first"), Ok(true));
    }
}

#[test]
fn test_add_code() {
    let mut store = TwoFaCodeStore::default();
    let email = Email::parse("test@example.com".to_string()).unwrap();
    let login_id = LoginId::default();
    let code = TwoFaCode::default();

    let result = store.add_code(email.clone(), login_id.clone(), code.clone());

    assert!(result.is_ok());
    assert_eq!(store.get_code(&email), Ok((login_id, code)));
}

#[test]
fn test_remove_code() {
    let mut store = TwoFaCodeStore::default();
    let email = Email::parse("test@example.com".to_string()).unwrap();
    let login_attempt_id = LoginId::default();
    let code = TwoFaCode::default();

    store
        .add_code(email.clone(), login_attempt_id.clone(), code.clone())
        .unwrap();

    let result = store.remove_code(&email);

    assert!(result.is_ok());
    assert_eq!(
        store.get_code(&email),
        Err(TwoFaCodeError::LoginAttemptIdNotFound)
    );
}

#[test]
fn test_get_code() {
    let mut store = TwoFaCodeStore::default();
    let email = Email::parse("test@example.com".to_string()).unwrap();
    let login_attempt_id = LoginId::default();
    let code = TwoFaCode::default();
    store
        .add_code(email.clone(), login_attempt_id.clone(), code.clone())
        .unwrap();

    let result = store.get_code(&email);

    assert!(result.is_ok());
    assert_eq!(result.unwrap(), (login_attempt_id, code));
}

#[test]
fn test_get_code_not_found() {
    let store = TwoFaCodeStore::default();
    let email = Email::parse("test@example.com".to_string()).unwrap();

    let result = store.get_code(&email);

    assert!(result.is_err());
    assert_eq!(result.unwrap_err(), TwoFaCodeError::LoginAttemptIdNotFound);
}

#[test]
fn get_code_does_not_delete() {
    let mut store = TwoFaCodeStore::new();
    let email = Email::parse("test@example.com".to_string()).unwrap();
    let login_id = LoginId::from_value(7);
    let code = TwoFaCode::from_number(123_456).unwrap();
    store.add_code(email.clone(), login_id.clone(), code.clone()).unwrap();
    assert_eq!(store.get_code(&email), Ok((login_id.clone(), code.clone())));
    assert_eq!(store.get_code(&email), Ok((login_id, code)));
}

#[test]
fn new_challenge_replaces_the_old_one() {
    let mut store = TwoFaCodeStore::new();
    let email = Email::parse("test@example.com".to_string()).unwrap();
    let other = Email::parse("other@example.com".to_string()).unwrap();
    let first = (LoginId::from_value(1), TwoFaCode::from_number(111_111).unwrap());
    let second = (LoginId::from_value(2), TwoFaCode::from_number(222_222).unwrap());
    let third = (LoginId::from_value(3), TwoFaCode::from_number(333_333).unwrap());

    store.add_code(email.clone(), first.0.clone(), first.1.clone()).unwrap();
    store.add_code(other.clone(), third.0.clone(), third.1.clone()).unwrap();
    store.add_code(email.clone(), second.0.clone(), second.1.clone()).unwrap();

    assert_eq!(store.get_code(&email), Ok(second));
    assert_eq!(store.get_code(&other), Ok(third));

    // One challenge per email: after one removal none is left for it.
    assert_eq!(store.remove_code(&email), Ok(()));
    assert_eq!(store.get_code(&email), Err(TwoFaCodeError::LoginAttemptIdNotFound));
    assert!(store.get_code(&other).is_ok());
}

#[test]
fn removing_a_missing_challenge_is_not_found() {
    let mut store = TwoFaCodeStore::new();
    let email = Email::parse("test@example.com".to_string()).unwrap();
    assert_eq!(
        store.remove_code(&email),
        Err(TwoFaCodeError::LoginAttemptIdNotFound)
    );
}

#[test]
fn test_add_user() {
    let mut store = UserDataStore::default();
    let user = User {
        email: Email::parse(String::from("johndoe@mail.com")).unwrap(),
        password: Password::parse(String::from("plsdonthackme")).unwrap(),
        requires_2fa: false,
    };
    // Test adding a new user
    let result = store.add_user(user.clone());
    assert!(result.is_ok());

    // Test adding an existing user
    let result = store.add_user(user);
    assert_eq!(result, Err(UserStoreError::UserAlreadyExists));
}

#[test]
fn test_get_user() {
    let mut store = UserDataStore::default();
    let email = Email::parse(String::from("johndoe@mail.com")).unwrap();
    let password = Password::parse(String::from("plsdonthackme")).unwrap();

    let user = User {
        email: email.clone(),
        password: password.clone(),
        requires_2fa: false,
    };

    // Test getting a user that exists
    store.add_user(user.clone()).unwrap();
    let result = store.get_user(&email);
    assert_eq!(result, Ok(user));

    // Test getting a user that doesn't exist
    let result = store.get_user(&Email::parse(String::from("nonexistent@mail.com")).unwrap());

    assert_eq!(result, Err(UserStoreError::UserNotFound));
}

#[test]
fn test_validate_user() {
    let mut store = UserDataStore::default();
    let email = Email::parse(String::from("johndoe@mail.com")).unwrap();
    let password = Password::parse(String::from("plsdonthackme")).unwrap();

    let user = User {
        email: email.clone(),
        password: password.clone(),
        requires_2fa: false,
    };

    // Test validating a user that exists with correct password
    store.add_user(user.clone()).unwrap();
    let result = store.validate_user(&email, &password);
    assert_eq!(result, Ok(()));

    // Test validating a user that exists with incorrect password
    let wrong_password = Password::parse("wrongpassword".to_owned()).unwrap();
    let result = store.validate_user(&email, &wrong_password);
    assert_eq!(result, Err(UserStoreError::InvalidCredentials));

    // Test validating a user that doesn't exist
    let result = store.validate_user(
        &Email::parse("nonexistent@example.com".to_string()).unwrap(),
        &password,
    );

    assert_eq!(result, Err(UserStoreError::UserNotFound));
}

#[test]
fn second_add_user_is_rejected_whatever_password_and_flag() {
    let mut store = UserDataStore::new();
    let email = Email::parse(String::from("johndoe@mail.com")).unwrap();
    let first = User {
        email: email.clone(),
        password: Password::parse(String::from("plsdonthackme")).unwrap(),
        requires_2fa: false,
    };
    assert_eq!(store.add_user(first.clone()), Ok(()));

    let second = User {
        email: email.clone(),
        password: Password::parse(String::from("anotherpassword")).unwrap(),
        requires_2fa: true,
    };
    assert_eq!(store.add_user(second), Err(UserStoreError::UserAlreadyExists));

    // Nothing was overwritten.
    assert_eq!(store.get_user(&email), Ok(first));
}

#[test]
fn directory_keeps_many_users_apart() {
    let mut store = UserDataStore::new();
    for i in 0..10 {
        let user = User {
            email: Email::parse(format!("user{}@mail.com", i)).unwrap(),
            password: Password::parse(format!("password-{}", i)).unwrap(),
            requires_2fa: i % 2 == 0,
        };
        assert_eq!(store.add_user(user), Ok(()));
    }
    for i in 0..10 {
        let email = Email::parse(format!("user{}@mail.com", i)).unwrap();
        let user = store.get_user(&email).unwrap();
        assert_eq!(user.email, email);
        assert_eq!(user.password.as_ref(), format!("password-{}", i));
        assert_eq!(user.requires_2fa, i % 2 == 0);
    }
}

#[test]
fn challenge_lives_for_ten_minutes() {
    let mut store = TwoFaCodeStore::new();
    let email = Email::parse("test@example.com".to_string()).unwrap();
    let login_id = LoginId::from_value(1);
    let code = TwoFaCode::from_number(123_456).unwrap();

    store.expire(1_000);
    store.add_code(email.clone(), login_id.clone(), code.clone()).unwrap();

    // Good until the last second before the deadline.
    store.expire(1_000);
    assert!(store.get_code(&email).is_ok());
    store.expire(1_599);
    assert_eq!(store.get_code(&email), Ok((login_id, code)));

    // Gone at the deadline, 600 seconds after it was stored.
    store.expire(1_600);
    assert_eq!(store.get_code(&email), Err(TwoFaCodeError::LoginAttemptIdNotFound));
    assert_eq!(store.remove_code(&email), Err(TwoFaCodeError::LoginAttemptIdNotFound));
}

#[test]
fn expiry_drops_only_what_is_due() {
    let mut store = TwoFaCodeStore::new();
    let early = Email::parse("early@example.com".to_string()).unwrap();
    let late = Email::parse("late@example.com".to_string()).unwrap();
    let always = Email::parse("always@example.com".to_string()).unwrap();

    store.expire(100);
    store.add_code(early.clone(), LoginId::from_value(1), TwoFaCode::from_number(111_111).unwrap()).unwrap();
    store.expire(400);
    store.add_code(late.clone(), LoginId::from_value(2), TwoFaCode::from_number(222_222).unwrap()).unwrap();
    store.add_code(always.clone(), LoginId::from_value(3), TwoFaCode::from_number(333_333).unwrap()).unwrap();

    store.expire(700);
    assert_eq!(store.get_code(&early), Err(TwoFaCodeError::LoginAttemptIdNotFound));
    assert!(store.get_code(&late).is_ok());
    assert!(store.get_code(&always).is_ok());

    // A new challenge for the same email starts a new ten minutes.
    store.expire(900);
    store.add_code(always.clone(), LoginId::from_value(4), TwoFaCode::from_number(444_444).unwrap()).unwrap();
    store.expire(1_000);
    assert_eq!(store.get_code(&late), Err(TwoFaCodeError::LoginAttemptIdNotFound));
    assert_eq!(store.get_code(&always).unwrap().0, LoginId::from_value(4));
    store.expire(1_499);
    assert!(store.get_code(&always).is_ok());
    store.expire(1_500);
    assert!(store.get_code(&always).is_err());
}

#[test]
fn clock_does_not_run_backwards() {
    let mut store = TwoFaCodeStore::new();
    let email = Email::parse("test@example.com".to_string()).unwrap();
    store.expire(1_000);
    store.expire(10);
    store.add_code(email.clone(), LoginId::from_value(1), TwoFaCode::from_number(123_456).unwrap()).unwrap();
    // Stored at 1000, not at 10: still good at 1599.
    store.expire(1_599);
    assert!(store.get_code(&email).is_ok());
    store.expire(u64::MAX);
    assert!(store.get_code(&email).is_err());
    // At the end of time a challenge can still be stored and read.
    store.add_code(email.clone(), LoginId::from_value(2), TwoFaCode::from_number(123_456).unwrap()).unwrap();
    assert!(store.get_code(&email).is_ok());
}

#[test]
fn store_without_clock_keeps_its_challenges() {
    let mut store = TwoFaCodeStore::default();
    let email = Email::parse("test@example.com".to_string()).unwrap();
    store.add_code(email.clone(), LoginId::from_value(1), TwoFaCode::from_number(123_456).unwrap()).unwrap();
    for _ in 0..5 {
        assert!(store.get_code(&email).is_ok());
    }
}
