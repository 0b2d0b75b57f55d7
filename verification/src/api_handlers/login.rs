//! Login: from the credentials of a request to either a session or a
//! pending two-factor challenge.
//!
//! Minting the session token and dispatching the mail are the work of
//! outside services. The functions here decide what is to be done and
//! hand that back as a value; the caller does it and comes back with the
//! result.

use crate::domain::creds::{credentials_wellformed, Email, Password};
use crate::domain::data_stores::{UserStore, UserStoreError};
use crate::domain::error::AuthApiError;
use crate::domain::user::{User, UserView};
use crate::email_client::SendEmail;
use crate::services::two_fa::{
    is_code_text,
    is_login_id_text,
    lemma_login_id_is_no_code,
    LoginId,
    TwoFaCode,
    TwoFaCodeError,
    TwoFaCodes,
};
use vstd::prelude::*;

verus! {

/// What a client sends to log in.
#[derive(Debug)]
pub struct LoginRequest {
    pub email: String,
    pub password: String,
}

/// The body that tells a client to go on with the second factor. It holds
/// the login id and never the code.
#[derive(Debug)]
pub struct TwoFactorAuthResponse {
    pub message: String,
    pub login_id: String,
}

/// The body of a successful answer to a login request.
#[derive(Debug)]
pub enum LoginResponse {
    SingleFactorAuth,
    TwoFactorAuth(TwoFactorAuthResponse),
}

/// What is left to do once the credentials are accepted.
#[derive(Debug)]
pub enum LoginStep {
    /// The user logs in with the password alone: mint a session token for
    /// the email.
    MintToken { email: Email },
    /// A challenge was stored: dispatch the mail, then answer with the
    /// reply.
    SendCode { mail: SendEmail, reply: TwoFactorAuthResponse },
}

/// What checking the credentials of a request comes to, from the
/// directory alone: the user, or the rejection.
///
/// Malformed input is told apart from a failed authentication. An unknown
/// email and a wrong password are not.
pub open spec fn credentials_outcome(
    users: Map<Seq<char>, UserView>,
    email: Seq<char>,
    password: Seq<char>,
) -> Result<UserView, AuthApiError> {
    if !credentials_wellformed(email, password) {
        Err(AuthApiError::InvalidCredentials)
    } else if !users.contains_key(email) || users[email].password != password {
        Err(AuthApiError::IncorrectCredentials)
    } else {
        Ok(users[email])
    }
}

/// The mail and the reply of a challenge go together: the mail carries a
/// code to the email, the reply carries a login id and nothing of the
/// code.
pub open spec fn challenge_prepared(
    email: Seq<char>,
    mail: SendEmail,
    reply: TwoFactorAuthResponse,
) -> bool {
    &&& mail.recipient@ == email
    &&& mail.subject@ == "2FA Code"@
    &&& is_code_text(mail.content@)
    &&& reply.message@ == "2FA required"@
    &&& is_login_id_text(reply.login_id@)
    &&& reply.login_id@ != mail.content@
    &&& reply.message@ != mail.content@
}

/// A challenge for the email went into the store, in place of any that
/// was there for it, and the mail and the reply are the ones that go with
/// it.
pub open spec fn challenge_issued(
    before: Map<Seq<char>, (Seq<char>, Seq<char>)>,
    after: Map<Seq<char>, (Seq<char>, Seq<char>)>,
    email: Seq<char>,
    mail: SendEmail,
    reply: TwoFactorAuthResponse,
) -> bool {
    &&& challenge_prepared(email, mail, reply)
    &&& after == before.insert(email, (reply.login_id@, mail.content@))
}

/// What the directory's answer to the check of a password means for the
/// login. An unknown email and a wrong password are rejected alike; a
/// directory that failed ends the login in `UnexpectedError`.
pub fn password_checked(validated: Result<(), UserStoreError>) -> (answer: Result<
    (),
    AuthApiError,
>)
    ensures
        answer == match validated {
            Ok(()) => Ok::<(), AuthApiError>(()),
            Err(UserStoreError::UserNotFound) => Err::<(), AuthApiError>(
                AuthApiError::IncorrectCredentials,
            ),
            Err(UserStoreError::InvalidCredentials) => Err::<(), AuthApiError>(
                AuthApiError::IncorrectCredentials,
            ),
            Err(_) => Err::<(), AuthApiError>(AuthApiError::UnexpectedError),
        },
{
    match validated {
        Ok(()) => Ok(()),
        Err(UserStoreError::UserNotFound) => Err(AuthApiError::IncorrectCredentials),
        Err(UserStoreError::InvalidCredentials) => Err(AuthApiError::IncorrectCredentials),
        Err(_) => Err(AuthApiError::UnexpectedError),
    }
}

/// What the directory's answer to the lookup of the user means for the
/// login: the user where there is one, a rejection as for a wrong
/// password where there is none, `UnexpectedError` where the directory
/// failed.
pub fn user_found(found: Result<User, UserStoreError>) -> (answer: Result<User, AuthApiError>)
    ensures
        answer == match found {
            Ok(user) => Ok::<User, AuthApiError>(user),
            Err(UserStoreError::UserNotFound) => Err::<User, AuthApiError>(
                AuthApiError::IncorrectCredentials,
            ),
            Err(_) => Err::<User, AuthApiError>(AuthApiError::UnexpectedError),
        },
{
    match found {
        Ok(user) => Ok(user),
        Err(UserStoreError::UserNotFound) => Err(AuthApiError::IncorrectCredentials),
        Err(_) => Err(AuthApiError::UnexpectedError),
    }
}

/// Parses the credentials and checks them against the directory. What
/// comes back on success are the credentials of the request with the flag
/// that the directory holds for them.
///
/// Malformed input is rejected as such by any directory, and before the
/// directory is asked. What the directory answers is judged by
/// `password_checked` and `user_found`. With a faithful directory the
/// answer is the one that `credentials_outcome` names.
pub fn check_credentials<U: UserStore>(user_store: &U, request: LoginRequest) -> (checked: Result<
    User,
    AuthApiError,
>)
    ensures
        (checked matches Err(AuthApiError::InvalidCredentials)) <==> !credentials_wellformed(
            request.email@,
            request.password@,
        ),
        match checked {
            Ok(user) => user@.email == request.email@ && user@.password == request.password@,
            Err(error) => error == AuthApiError::InvalidCredentials || error
                == AuthApiError::IncorrectCredentials || error == AuthApiError::UnexpectedError,
        },
        user_store.faithful() ==> match checked {
            Ok(user) => credentials_outcome(
                user_store.users(),
                request.email@,
                request.password@,
            ) == Ok::<UserView, AuthApiError>(user@),
            Err(error) => credentials_outcome(
                user_store.users(),
                request.email@,
                request.password@,
            ) == Err::<UserView, AuthApiError>(error),
        },
{
    let email = match Email::parse(request.email) {
        Ok(email) => email,
        Err(_) => return Err(AuthApiError::InvalidCredentials),
    };
    let password = match Password::parse(request.password) {
        Ok(password) => password,
        Err(_) => return Err(AuthApiError::InvalidCredentials),
    };
    match password_checked(user_store.validate_user(&email, &password)) {
        Ok(()) => {},
        Err(error) => return Err(error),
    }
    match user_found(user_store.get_user(&email)) {
        Ok(user) => Ok(User { email, password, requires_2fa: user.requires_2fa }),
        Err(error) => Err(error),
    }
}

/// What the store's answer to `add_code` means for the login: the mail and
/// the reply go on where the challenge was stored, and the login ends in
/// `UnexpectedError` where it was not. No challenge is reported that the
/// store did not take.
pub fn challenge_stored(
    added: Result<(), TwoFaCodeError>,
    mail: SendEmail,
    reply: TwoFactorAuthResponse,
) -> (answer: Result<(SendEmail, TwoFactorAuthResponse), AuthApiError>)
    ensures
        answer == match added {
            Ok(()) => Ok::<(SendEmail, TwoFactorAuthResponse), AuthApiError>((mail, reply)),
            Err(_) => Err::<(SendEmail, TwoFactorAuthResponse), AuthApiError>(
                AuthApiError::UnexpectedError,
            ),
        },
{
    match added {
        Ok(()) => Ok((mail, reply)),
        Err(_) => Err(AuthApiError::UnexpectedError),
    }
}

/// Stores the challenge made of the given id and code, and prepares the
/// mail and the reply that go with it.
///
/// What the store answers is judged by `challenge_stored`. A faithful
/// store takes the challenge.
pub fn issue_challenge<C: TwoFaCodes>(
    email: &Email,
    login_id: LoginId,
    code: TwoFaCode,
    two_fa_codes: &mut C,
) -> (issued: Result<(SendEmail, TwoFactorAuthResponse), AuthApiError>)
    ensures
        match issued {
            Ok((mail, reply)) => {
                &&& challenge_prepared(email@, mail, reply)
                &&& reply.login_id@ == login_id@
                &&& mail.content@ == code@
            },
            Err(error) => error == AuthApiError::UnexpectedError,
        },
        old(two_fa_codes).faithful() ==> {
            &&& final(two_fa_codes).faithful()
            &&& issued is Ok
            &&& final(two_fa_codes).codes() == old(two_fa_codes).codes().insert(
                email@,
                (login_id@, code@),
            )
        },
{
    let reply = TwoFactorAuthResponse {
        message: "2FA required".to_owned(),
        login_id: login_id.as_ref().to_owned(),
    };
    let mail = SendEmail {
        recipient: email.clone(),
        subject: "2FA Code".to_owned(),
        content: code.as_ref().to_owned(),
    };
    proof {
        lemma_login_id_is_no_code(login_id@, code@);
        reveal_strlit("2FA required");
        assert("2FA required"@.len() == 12);
    }
    let added = two_fa_codes.add_code(email.clone(), login_id, code);
    challenge_stored(added, mail, reply)
}

/// Opens the second factor for an email: draws a fresh login id and a
/// fresh code, stores them as the email's challenge, and prepares the mail
/// and the reply.
pub fn handle_2fa<C: TwoFaCodes>(email: &Email, two_fa_codes: &mut C) -> (issued: Result<
    (SendEmail, TwoFactorAuthResponse),
    AuthApiError,
>)
    ensures
        match issued {
            Ok((mail, reply)) => challenge_prepared(email@, mail, reply),
            Err(error) => error == AuthApiError::UnexpectedError,
        },
        old(two_fa_codes).faithful() ==> {
            &&& final(two_fa_codes).faithful()
            &&& issued matches Ok((mail, reply))
            &&& challenge_issued(
                old(two_fa_codes).codes(),
                final(two_fa_codes).codes(),
                email@,
                mail,
                reply,
            )
        },
{
    let login_id = LoginId::default();
    let code = TwoFaCode::default();
    issue_challenge(email, login_id, code, two_fa_codes)
}

/// The answer to a two-factor login once the mail was handed to the
/// dispatch: the reply where that went well, an error where it did not.
pub fn challenge_reply(sent: bool, reply: TwoFactorAuthResponse) -> (answer: Result<
    (u16, LoginResponse),
    AuthApiError,
>)
    ensures
        answer == if sent {
            Ok::<(u16, LoginResponse), AuthApiError>((206, LoginResponse::TwoFactorAuth(reply)))
        } else {
            Err::<(u16, LoginResponse), AuthApiError>(AuthApiError::UnexpectedError)
        },
{
    if sent {
        Ok((206, LoginResponse::TwoFactorAuth(reply)))
    } else {
        Err(AuthApiError::UnexpectedError)
    }
}

/// The session that authentication ends in: the token where one was
/// minted, an error where minting failed.
pub fn authenticated(minted: Option<String>) -> (session: Result<String, AuthApiError>)
    ensures
        session == match minted {
            Some(token) => Ok::<String, AuthApiError>(token),
            None => Err::<String, AuthApiError>(AuthApiError::UnexpectedError),
        },
{
    match minted {
        Some(token) => Ok(token),
        None => Err(AuthApiError::UnexpectedError),
    }
}

/// The answer to a login without second factor, given what minting the
/// session token came to: status, body and the token for the cookie.
pub fn handle_no_2fa(minted: Option<String>) -> (answer: Result<
    (u16, LoginResponse, String),
    AuthApiError,
>)
    ensures
        answer == match minted {
            Some(token) => Ok::<(u16, LoginResponse, String), AuthApiError>(
                (200, LoginResponse::SingleFactorAuth, token),
            ),
            None => Err::<(u16, LoginResponse, String), AuthApiError>(
                AuthApiError::UnexpectedError,
            ),
        },
{
    match authenticated(minted) {
        Ok(token) => Ok((200, LoginResponse::SingleFactorAuth, token)),
        Err(error) => Err(error),
    }
}

/// Checks the credentials of a request and says what is to be done next.
///
/// A user without second factor gets a token minted, and the challenge
/// store is not touched. For a user with second factor one challenge is
/// stored, in place of any earlier one for the same email, and one mail is
/// to be sent; the reply holds the login id and never the code.
///
/// With a faithful directory the step is the one that `credentials_outcome`
/// calls for. A login ends in `UnexpectedError` only where a store failed,
/// which a faithful one does not.
pub fn login<U: UserStore, C: TwoFaCodes>(
    user_store: &U,
    two_fa_codes: &mut C,
    request: LoginRequest,
) -> (step: Result<LoginStep, AuthApiError>)
    ensures
        (step matches Err(AuthApiError::InvalidCredentials)) <==> !credentials_wellformed(
            request.email@,
            request.password@,
        ),
        match step {
            Ok(LoginStep::MintToken { email }) => {
                &&& email@ == request.email@
                &&& *final(two_fa_codes) == *old(two_fa_codes)
            },
            Ok(LoginStep::SendCode { mail, reply }) => challenge_prepared(
                request.email@,
                mail,
                reply,
            ),
            Err(error) => {
                &&& error == AuthApiError::InvalidCredentials || error
                    == AuthApiError::IncorrectCredentials || error == AuthApiError::UnexpectedError
                &&& error != AuthApiError::UnexpectedError ==> *final(two_fa_codes)
                    == *old(two_fa_codes)
            },
        },
        user_store.faithful() ==> match step {
            Ok(LoginStep::MintToken { .. }) => {
                &&& credentials_outcome(user_store.users(), request.email@, request.password@)
                    matches Ok(user)
                &&& !user.requires_2fa
            },
            Ok(LoginStep::SendCode { .. }) => {
                &&& credentials_outcome(user_store.users(), request.email@, request.password@)
                    matches Ok(user)
                &&& user.requires_2fa
            },
            Err(error) => {
                ||| credentials_outcome(user_store.users(), request.email@, request.password@)
                    == Err::<UserView, AuthApiError>(error)
                ||| {
                    &&& error == AuthApiError::UnexpectedError
                    &&& !old(two_fa_codes).faithful()
                    &&& credentials_outcome(
                        user_store.users(),
                        request.email@,
                        request.password@,
                    ) matches Ok(user)
                    &&& user.requires_2fa
                }
            },
        },
        old(two_fa_codes).faithful() ==> {
            &&& final(two_fa_codes).faithful()
            &&& match step {
                Ok(LoginStep::MintToken { .. }) => {
                    final(two_fa_codes).codes() == old(two_fa_codes).codes()
                },
                Ok(LoginStep::SendCode { mail, reply }) => {
                    final(two_fa_codes).codes() == old(two_fa_codes).codes().insert(
                        request.email@,
                        (reply.login_id@, mail.content@),
                    )
                },
                Err(error) => {
                    &&& error == AuthApiError::UnexpectedError ==> !user_store.faithful()
                    &&& final(two_fa_codes).codes() == old(two_fa_codes).codes()
                },
            }
        },
{
    let user = match check_credentials(user_store, request) {
        Ok(user) => user,
        Err(error) => return Err(error),
    };
    if user.requires_2fa {
        match handle_2fa(&user.email, two_fa_codes) {
            Ok((mail, reply)) => Ok(LoginStep::SendCode { mail, reply }),
            Err(error) => Err(error),
        }
    } else {
        Ok(LoginStep::MintToken { email: user.email })
    }
}

} // verus!
