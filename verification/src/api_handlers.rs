//! The login state machine, one function for each request.

pub mod login;
pub mod signup;
pub mod verify_2fa;
pub mod verify_token;

pub use login::{
    authenticated,
    challenge_issued,
    challenge_prepared,
    challenge_reply,
    challenge_stored,
    check_credentials,
    credentials_outcome,
    handle_2fa,
    handle_no_2fa,
    issue_challenge,
    login,
    password_checked,
    user_found,
    LoginRequest,
    LoginResponse,
    LoginStep,
    TwoFactorAuthResponse,
};
pub use signup::{
    email_free,
    lemma_signup_twice_refused,
    registered,
    signup,
    signup_outcome,
    SignupRequest,
    SignupResponse,
};
pub use verify_2fa::{
    challenge_compared,
    challenge_removed,
    lemma_challenge_is_consumed_once,
    lemma_expired_challenge_is_rejected,
    lemma_issued_challenge_is_accepted,
    lemma_mismatch_is_like_missing,
    verify_2fa,
    verify_2fa_input_error,
    verify_2fa_outcome,
    Verify2FARequest,
};
pub use verify_token::{
    lemma_revoked_token_stays_rejected,
    revocation_checked,
    token_accepted,
    verify_token,
    TokenClaims,
};
