//! The user directory held in memory.

use crate::assoc::{as_map, distinct_keys, lemma_absent, lemma_entry, lemma_push};
use crate::domain::creds::{Email, Password};
use crate::domain::data_stores::{UserStore, UserStoreError};
use crate::domain::user::{User, UserView};
use vstd::prelude::*;

verus! {

/// Users in a vector, in the order of their signup, no email twice.
pub struct UserDataStore {
    users: Vec<User>,
}

impl View for UserDataStore {
    type V = Map<Seq<char>, UserView>;

    closed spec fn view(&self) -> Map<Seq<char>, UserView> {
        as_map(self.entries())
    }
}

impl UserDataStore {
    /// The users as pairs of key and value.
    spec fn entries(&self) -> Seq<(Seq<char>, UserView)> {
        self.users@.map_values(|user: User| (user.email@, user@))
    }

    #[verifier::type_invariant]
    spec fn valid(&self) -> bool {
        distinct_keys(self.entries())
    }

    /// A directory without users.
    pub fn new() -> (store: UserDataStore)
        ensures
            store@ == Map::<Seq<char>, UserView>::empty(),
    {
        let store = UserDataStore { users: Vec::new() };
        assert(store.entries() =~= Seq::empty());
        assert(store@ =~= Map::empty());
        store
    }

    /// Where the user with this email stands in the vector.
    fn position(&self, email: &Email) -> (at: Option<usize>)
        ensures
            match at {
                Some(i) => {
                    &&& i < self.users.len()
                    &&& self.users[i as int].email@ == email@
                    &&& self@.contains_key(email@)
                    &&& self@[email@] == self.users[i as int]@
                },
                None => !self@.contains_key(email@),
            },
    {
        proof {
            use_type_invariant(self);
        }
        let mut i: usize = 0;
        while i < self.users.len()
            invariant
                i <= self.users.len(),
                distinct_keys(self.entries()),
                forall|j: int| 0 <= j < i ==> (#[trigger] self.entries()[j]).0 != email@,
            decreases self.users.len() - i,
        {
            if self.users[i].email == *email {
                proof {
                    lemma_entry(self.entries(), i as int);
                }
                return Some(i);
            }
            i += 1;
        }
        proof {
            lemma_absent(self.entries(), email@);
        }
        None
    }
}

impl Default for UserDataStore {
    fn default() -> (store: UserDataStore)
        ensures
            store@ == Map::<Seq<char>, UserView>::empty(),
    {
        UserDataStore::new()
    }
}

impl UserStore for UserDataStore {
    open spec fn users(&self) -> Map<Seq<char>, UserView> {
        self@
    }

    open spec fn faithful(&self) -> bool {
        true
    }

    fn add_user(&mut self, user: User) -> (added: Result<(), UserStoreError>) {
        if self.position(&user.email).is_some() {
            return Err(UserStoreError::UserAlreadyExists);
        }
        proof {
            use_type_invariant(&*self);
            lemma_push(self.entries(), user@.email, user@);
            assert(self.users@.push(user).map_values(|user: User| (user.email@, user@))
                =~= self.entries().push((user@.email, user@)));
        }
        let mut users = Vec::new();
        core::mem::swap(&mut self.users, &mut users);
        users.push(user);
        self.users = users;
        Ok(())
    }

    fn get_user(&self, email: &Email) -> (found: Result<User, UserStoreError>) {
        match self.position(email) {
            Some(i) => Ok(self.users[i].clone()),
            None => Err(UserStoreError::UserNotFound),
        }
    }

    fn validate_user(&self, email: &Email, password: &Password) -> (checked: Result<
        (),
        UserStoreError,
    >) {
        match self.position(email) {
            Some(i) => {
                if self.users[i].password == *password {
                    Ok(())
                } else {
                    Err(UserStoreError::InvalidCredentials)
                }
            },
            None => Err(UserStoreError::UserNotFound),
        }
    }
}

} // verus!
