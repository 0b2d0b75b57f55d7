//! Signup: registering a new user.

use crate::domain::creds::{credentials_wellformed, password_acceptable, Email, Password};
use crate::domain::data_stores::{UserStore, UserStoreError};
use crate::domain::error::AuthApiError;
use crate::domain::user::{User, UserView};
use vstd::prelude::*;

verus! {

/// What a client sends to sign up.
#[derive(Debug)]
pub struct SignupRequest {
    pub email: String,
    pub password: String,
    pub requires_2fa: bool,
}

/// The body of the answer to a successful signup.
#[derive(Debug, PartialEq)]
pub struct SignupResponse {
    pub message: String,
}

impl SignupRequest {
    /// The user that the request asks to register.
    pub open spec fn user(&self) -> UserView {
        UserView { requires_2fa: self.requires_2fa, email: self.email@, password: self.password@ }
    }
}

/// What a signup comes to, from the directory alone: registration, or the
/// rejection. An email that is registered already is refused whatever the
/// password and the flag of the request.
pub open spec fn signup_outcome(
    users: Map<Seq<char>, UserView>,
    email: Seq<char>,
    password: Seq<char>,
) -> Result<(), AuthApiError> {
    if !credentials_wellformed(email, password) {
        Err(AuthApiError::InvalidCredentials)
    } else if users.contains_key(email) {
        Err(AuthApiError::UserAlreadyExists)
    } else {
        Ok(())
    }
}

/// Signup is refused the second time. Once a directory holds an email, as
/// it does after a successful signup, every well-formed signup under that
/// email is answered with `UserAlreadyExists`, whatever its password.
pub proof fn lemma_signup_twice_refused(
    users: Map<Seq<char>, UserView>,
    user: UserView,
    email: Seq<char>,
    password: Seq<char>,
)
    requires
        signup_outcome(users, user.email, user.password) is Ok,
        email == user.email,
        password_acceptable(password),
    ensures
        signup_outcome(users.insert(user.email, user), email, password) == Err::<
            (),
            AuthApiError,
        >(AuthApiError::UserAlreadyExists),
{
}

/// What the directory's answer to the lookup of the email means for the
/// signup: it goes on where no user is registered under the email, is
/// refused where one is, and ends in `UnexpectedError` where the directory
/// failed.
pub fn email_free(found: Result<User, UserStoreError>) -> (answer: Result<(), AuthApiError>)
    ensures
        answer == match found {
            Ok(_) => Err::<(), AuthApiError>(AuthApiError::UserAlreadyExists),
            Err(UserStoreError::UserNotFound) => Ok::<(), AuthApiError>(()),
            Err(_) => Err::<(), AuthApiError>(AuthApiError::UnexpectedError),
        },
{
    match found {
        Ok(_) => Err(AuthApiError::UserAlreadyExists),
        Err(UserStoreError::UserNotFound) => Ok(()),
        Err(_) => Err(AuthApiError::UnexpectedError),
    }
}

/// What the directory's answer to `add_user` means for the signup: the
/// status 201 and the message where the user was registered, and
/// `UnexpectedError` where it was not. No signup is reported that the
/// directory did not take.
pub fn registered(added: Result<(), UserStoreError>) -> (answer: Result<
    (u16, SignupResponse),
    AuthApiError,
>)
    ensures
        match added {
            Ok(()) => answer matches Ok((status, body)) && status == 201 && body.message@
                == "User created successfully!"@,
            Err(_) => answer == Err::<(u16, SignupResponse), AuthApiError>(
                AuthApiError::UnexpectedError,
            ),
        },
{
    match added {
        Ok(()) => Ok((201, SignupResponse { message: "User created successfully!".to_owned() })),
        Err(_) => Err(AuthApiError::UnexpectedError),
    }
}

/// Registers the user of the request.
///
/// Malformed input is rejected as such by any directory, and before the
/// directory is asked. What the directory answers is judged by
/// `email_free` and `registered`. With a faithful directory the answer is
/// the one that `signup_outcome` names, and the directory changes exactly
/// where the answer is the status 201.
pub fn signup<S: UserStore>(user_store: &mut S, request: SignupRequest) -> (answer: Result<
    (u16, SignupResponse),
    AuthApiError,
>)
    ensures
        (answer matches Err(AuthApiError::InvalidCredentials)) <==> !credentials_wellformed(
            request.email@,
            request.password@,
        ),
        match answer {
            Ok((status, body)) => status == 201 && body.message@ == "User created successfully!"@,
            Err(error) => {
                &&& error == AuthApiError::InvalidCredentials || error
                    == AuthApiError::UserAlreadyExists || error == AuthApiError::UnexpectedError
                &&& error != AuthApiError::UnexpectedError ==> *final(user_store)
                    == *old(user_store)
            },
        },
        old(user_store).faithful() ==> {
            &&& final(user_store).faithful()
            &&& match answer {
                Ok(_) => {
                    &&& signup_outcome(
                        old(user_store).users(),
                        request.email@,
                        request.password@,
                    ) is Ok
                    &&& final(user_store).users() == old(user_store).users().insert(
                        request.email@,
                        request.user(),
                    )
                },
                Err(error) => {
                    &&& signup_outcome(
                        old(user_store).users(),
                        request.email@,
                        request.password@,
                    ) == Err::<(), AuthApiError>(error)
                    &&& final(user_store).users() == old(user_store).users()
                },
            }
        },
{
    let email = match Email::parse(request.email) {
        Ok(email) => email,
        Err(_) => return Err(AuthApiError::InvalidCredentials),
    };
    let password = match Password::parse(request.password) {
        Ok(password) => password,
        Err(_) => return Err(AuthApiError::InvalidCredentials),
    };
    let user = User { email, password, requires_2fa: request.requires_2fa };
    match email_free(user_store.get_user(&user.email)) {
        Ok(()) => {},
        Err(error) => return Err(error),
    }
    let added = user_store.add_user(user);
    registered(added)
}

} // verus!
