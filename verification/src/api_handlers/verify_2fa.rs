//! The second step of a two-factor login: the client presents the login id
//! and the code it was mailed.

use crate::api_handlers::login::{challenge_issued, TwoFactorAuthResponse};
use crate::domain::creds::{email_wellformed, Email};
use crate::domain::error::AuthApiError;
use crate::email_client::SendEmail;
use crate::services::two_fa::{is_code_text, LoginId, TwoFaCode, TwoFaCodeError, TwoFaCodes};
use vstd::prelude::*;

verus! {

/// What a client sends to complete a two-factor login.
#[derive(Debug)]
pub struct Verify2FARequest {
    pub email: String,
    pub login_id: String,
    pub two_fa_code: String,
}

/// What is wrong with the form of a request, where something is: the
/// email, the login id or the code is none. Each is malformed input.
pub open spec fn verify_2fa_input_error(
    email: Seq<char>,
    login_id: Seq<char>,
    code: Seq<char>,
) -> Option<AuthApiError> {
    if !email_wellformed(email) || LoginId::spec_parse(login_id) is None || !is_code_text(code) {
        Some(AuthApiError::InvalidCredentials)
    } else {
        None
    }
}

/// What the verification of a request comes to, from the pending
/// challenges alone: the email to authenticate, or the rejection.
///
/// A pair that does not match the stored one is rejected as a missing
/// challenge is, whichever half is wrong.
pub open spec fn verify_2fa_outcome(
    codes: Map<Seq<char>, (Seq<char>, Seq<char>)>,
    email: Seq<char>,
    login_id: Seq<char>,
    code: Seq<char>,
) -> Result<Seq<char>, AuthApiError> {
    match verify_2fa_input_error(email, login_id, code) {
        Some(error) => Err(error),
        None => if codes.contains_key(email) && codes[email] == (
            LoginId::spec_parse(login_id)->0,
            code,
        ) {
            Ok(email)
        } else {
            Err(AuthApiError::IncorrectCredentials)
        },
    }
}

/// What a login issues, verification accepts. After a challenge was issued
/// for a valid email, the request that presents the login id of the reply
/// and the code of the mail is accepted for that email.
pub proof fn lemma_issued_challenge_is_accepted(
    before: Map<Seq<char>, (Seq<char>, Seq<char>)>,
    after: Map<Seq<char>, (Seq<char>, Seq<char>)>,
    email: Seq<char>,
    mail: SendEmail,
    reply: TwoFactorAuthResponse,
)
    requires
        email_wellformed(email),
        challenge_issued(before, after, email, mail, reply),
    ensures
        verify_2fa_outcome(after, email, reply.login_id@, mail.content@) == Ok::<
            Seq<char>,
            AuthApiError,
        >(email),
{
}

/// A challenge is good for one verification. Where a request is accepted,
/// the same request against the store without the challenge, as the
/// accepted verification leaves it, is rejected as a missing challenge is.
pub proof fn lemma_challenge_is_consumed_once(
    codes: Map<Seq<char>, (Seq<char>, Seq<char>)>,
    email: Seq<char>,
    login_id: Seq<char>,
    code: Seq<char>,
)
    requires
        verify_2fa_outcome(codes, email, login_id, code) is Ok,
    ensures
        verify_2fa_outcome(codes.remove(email), email, login_id, code) == Err::<
            Seq<char>,
            AuthApiError,
        >(AuthApiError::IncorrectCredentials),
{
}

/// A challenge ends with its time. Once a store has dropped the challenge
/// of an email, as `expire` does when the deadline is reached, a request
/// for that email is rejected, and a well-formed one as a missing
/// challenge is.
pub proof fn lemma_expired_challenge_is_rejected(
    codes: Map<Seq<char>, (Seq<char>, Seq<char>)>,
    alive: Set<Seq<char>>,
    email: Seq<char>,
    login_id: Seq<char>,
    code: Seq<char>,
)
    requires
        !alive.contains(email),
    ensures
        verify_2fa_outcome(codes.restrict(alive), email, login_id, code) is Err,
        verify_2fa_input_error(email, login_id, code) is None ==> verify_2fa_outcome(
            codes.restrict(alive),
            email,
            login_id,
            code,
        ) == Err::<Seq<char>, AuthApiError>(AuthApiError::IncorrectCredentials),
{
}

/// A wrong pair tells nothing. A request that is rejected while a
/// challenge is stored for its email, be it for the login id, for the code
/// or for both, is rejected with the same error when none is stored.
pub proof fn lemma_mismatch_is_like_missing(
    codes: Map<Seq<char>, (Seq<char>, Seq<char>)>,
    email: Seq<char>,
    login_id: Seq<char>,
    code: Seq<char>,
)
    requires
        verify_2fa_outcome(codes, email, login_id, code) is Err,
    ensures
        verify_2fa_outcome(codes, email, login_id, code) == verify_2fa_outcome(
            codes.remove(email),
            email,
            login_id,
            code,
        ),
{
}

/// What the store's answer to `get_code` means for the verification: the
/// presented pair is accepted where it is the stored one; a pair that
/// differs in either half is rejected as a missing challenge is; a store
/// that failed ends the verification in `UnexpectedError`.
pub fn challenge_compared(
    login_id: &LoginId,
    code: &TwoFaCode,
    found: Result<(LoginId, TwoFaCode), TwoFaCodeError>,
) -> (answer: Result<(), AuthApiError>)
    ensures
        answer == match found {
            Ok((stored_id, stored_code)) => if stored_id@ == login_id@ && stored_code@ == code@ {
                Ok::<(), AuthApiError>(())
            } else {
                Err::<(), AuthApiError>(AuthApiError::IncorrectCredentials)
            },
            Err(TwoFaCodeError::LoginAttemptIdNotFound) => Err::<(), AuthApiError>(
                AuthApiError::IncorrectCredentials,
            ),
            Err(TwoFaCodeError::UnexpectedError) => Err::<(), AuthApiError>(
                AuthApiError::UnexpectedError,
            ),
        },
{
    match found {
        Ok((stored_id, stored_code)) => {
            if *login_id != stored_id || *code != stored_code {
                Err(AuthApiError::IncorrectCredentials)
            } else {
                Ok(())
            }
        },
        Err(TwoFaCodeError::LoginAttemptIdNotFound) => Err(AuthApiError::IncorrectCredentials),
        Err(TwoFaCodeError::UnexpectedError) => Err(AuthApiError::UnexpectedError),
    }
}

/// What the store's answer to `remove_code` means for the verification:
/// the email is authenticated where the challenge was deleted, and the
/// verification ends in `UnexpectedError` where it was not. No session is
/// granted while the challenge could be presented again.
pub fn challenge_removed(removed: Result<(), TwoFaCodeError>, email: Email) -> (answer: Result<
    Email,
    AuthApiError,
>)
    ensures
        answer == match removed {
            Ok(()) => Ok::<Email, AuthApiError>(email),
            Err(_) => Err::<Email, AuthApiError>(AuthApiError::UnexpectedError),
        },
{
    match removed {
        Ok(()) => Ok(email),
        Err(_) => Err(AuthApiError::UnexpectedError),
    }
}

/// Checks the presented pair against the stored challenge and, where they
/// match, deletes the challenge: it can be used once.
///
/// On success the caller has a session token minted for the email that
/// comes back. A request of the wrong form is rejected as such by any
/// store, and a rejection other than `UnexpectedError` leaves the store
/// untouched. What the store answers is judged by `challenge_compared` and
/// `challenge_removed`. With a faithful store the answer is the one that
/// `verify_2fa_outcome` names, and the challenge is deleted exactly where
/// the request is accepted.
pub fn verify_2fa<C: TwoFaCodes>(two_fa_codes: &mut C, request: Verify2FARequest) -> (verified:
    Result<Email, AuthApiError>)
    ensures
        match verify_2fa_input_error(request.email@, request.login_id@, request.two_fa_code@) {
            Some(error) => verified == Err::<Email, AuthApiError>(error),
            None => match verified {
                Ok(email) => email@ == request.email@,
                Err(error) => error == AuthApiError::IncorrectCredentials || error
                    == AuthApiError::UnexpectedError,
            },
        },
        verified matches Err(error) && error != AuthApiError::UnexpectedError ==> *final(two_fa_codes)
            == *old(two_fa_codes),
        old(two_fa_codes).faithful() ==> {
            &&& final(two_fa_codes).faithful()
            &&& match verified {
                Ok(email) => {
                    &&& verify_2fa_outcome(
                        old(two_fa_codes).codes(),
                        request.email@,
                        request.login_id@,
                        request.two_fa_code@,
                    ) == Ok::<Seq<char>, AuthApiError>(email@)
                    &&& final(two_fa_codes).codes() == old(two_fa_codes).codes().remove(email@)
                },
                Err(error) => {
                    &&& verify_2fa_outcome(
                        old(two_fa_codes).codes(),
                        request.email@,
                        request.login_id@,
                        request.two_fa_code@,
                    ) == Err::<Seq<char>, AuthApiError>(error)
                    &&& final(two_fa_codes).codes() == old(two_fa_codes).codes()
                },
            }
        },
{
    let email = match Email::parse(request.email) {
        Ok(email) => email,
        Err(_) => return Err(AuthApiError::InvalidCredentials),
    };
    let login_id = match LoginId::parse(request.login_id) {
        Ok(id) => id,
        Err(_) => return Err(AuthApiError::InvalidCredentials),
    };
    let code = match TwoFaCode::parse(request.two_fa_code) {
        Ok(code) => code,
        Err(_) => return Err(AuthApiError::InvalidCredentials),
    };
    match challenge_compared(&login_id, &code, two_fa_codes.get_code(&email)) {
        Ok(()) => {},
        Err(error) => return Err(error),
    }
    let removed = two_fa_codes.remove_code(&email);
    challenge_removed(removed, email)
}

} // verus!
