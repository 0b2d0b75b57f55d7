//! A registered user.

use super::creds::{Email, Password};
use vstd::prelude::*;

verus! {

/// A user as the directory holds it. It is made at signup and never changed.
#[derive(Debug, PartialEq)]
pub struct User {
    pub requires_2fa: bool,
    pub email: Email,
    pub password: Password,
}

/// What contracts see of a user: the flag and the two texts.
pub struct UserView {
    pub requires_2fa: bool,
    pub email: Seq<char>,
    pub password: Seq<char>,
}

impl View for User {
    type V = UserView;

    open spec fn view(&self) -> UserView {
        UserView { requires_2fa: self.requires_2fa, email: self.email@, password: self.password@ }
    }
}

impl Clone for User {
    fn clone(&self) -> (copy: User)
        ensures
            copy@ == self@,
    {
        User {
            requires_2fa: self.requires_2fa,
            email: self.email.clone(),
            password: self.password.clone(),
        }
    }
}

} // verus!
