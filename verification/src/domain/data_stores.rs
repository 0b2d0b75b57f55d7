//! The user directory as a capability: what any backend has to do.

use super::creds::{Email, Password};
use super::user::{User, UserView};
use vstd::prelude::*;

verus! {

/// Why a call on the directory failed.
#[derive(Clone, Copy, Debug, PartialEq, Eq, Structural)]
pub enum UserStoreError {
    UserAlreadyExists,
    UserNotFound,
    InvalidCredentials,
    UnexpectedError,
}

/// The answer that a directory owes to the registration of a user.
pub open spec fn add_user_answer(users: Map<Seq<char>, UserView>, user: UserView) -> Result<
    (),
    UserStoreError,
> {
    if users.contains_key(user.email) {
        Err(UserStoreError::UserAlreadyExists)
    } else {
        Ok(())
    }
}

/// The directory after that registration: with the user where the email
/// was free, as before where it was taken.
pub open spec fn users_after_add(users: Map<Seq<char>, UserView>, user: UserView) -> Map<
    Seq<char>,
    UserView,
> {
    if users.contains_key(user.email) {
        users
    } else {
        users.insert(user.email, user)
    }
}

/// The answer that a directory owes to the check of a password. Passwords
/// are compared as texts, character by character.
pub open spec fn validate_user_answer(
    users: Map<Seq<char>, UserView>,
    email: Seq<char>,
    password: Seq<char>,
) -> Result<(), UserStoreError> {
    if !users.contains_key(email) {
        Err(UserStoreError::UserNotFound)
    } else if users[email].password != password {
        Err(UserStoreError::InvalidCredentials)
    } else {
        Ok(())
    }
}

/// Registering is refused the second time. After a user was registered
/// under an email, or refused because the email was taken, a registration
/// under the same email is answered with `UserAlreadyExists` and leaves
/// the directory as it is, whatever its password and its flag.
pub proof fn lemma_second_add_user_refused(
    users: Map<Seq<char>, UserView>,
    first: UserView,
    second: UserView,
)
    requires
        first.email == second.email,
    ensures
        add_user_answer(users_after_add(users, first), second) == Err::<(), UserStoreError>(
            UserStoreError::UserAlreadyExists,
        ),
        users_after_add(users_after_add(users, first), second) == users_after_add(users, first),
{
}

/// A directory of registered users, keyed by email.
///
/// Its model is a map from the text of an email to the user registered
/// under it. What a method promises, it promises of a store that is
/// `faithful` to that model. A backend outside verified code implements
/// the methods alone and leaves `faithful` as it is, `false`: it may fail
/// for reasons of its own, and nothing is claimed of it.
pub trait UserStore {
    /// The registered users, each under the text of its email.
    open spec fn users(&self) -> Map<Seq<char>, UserView> {
        Map::empty()
    }

    /// The store answers every call as its model decides, and changes the
    /// model only as the call says.
    open spec fn faithful(&self) -> bool {
        false
    }

    /// Registers a user. An email that is already registered is refused,
    /// whatever the password and the flag: nothing is overwritten.
    fn add_user(&mut self, user: User) -> (added: Result<(), UserStoreError>)
        ensures
            old(self).faithful() ==> {
                &&& final(self).faithful()
                &&& added == add_user_answer(old(self).users(), user@)
                &&& final(self).users() == users_after_add(old(self).users(), user@)
            },
    ;

    /// The user registered under the email.
    fn get_user(&self, email: &Email) -> (found: Result<User, UserStoreError>)
        ensures
            self.faithful() ==> match found {
                Ok(user) => {
                    &&& self.users().contains_key(email@)
                    &&& self.users()[email@] == user@
                    &&& user@.email == email@
                },
                Err(error) => {
                    &&& error == UserStoreError::UserNotFound
                    &&& !self.users().contains_key(email@)
                },
            },
    ;

    /// Whether the password is the one registered under the email.
    fn validate_user(&self, email: &Email, password: &Password) -> (checked: Result<
        (),
        UserStoreError,
    >)
        ensures
            self.faithful() ==> checked == validate_user_answer(
                self.users(),
                email@,
                password@,
            ),
    ;
}

} // verus!
