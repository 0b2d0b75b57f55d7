//! The revocation set: identifiers of session tokens that are no longer
//! accepted.
//!
//! A token is only ever added. Nothing takes one out, so a revoked token
//! stays revoked for as long as the store lives.

use vstd::prelude::*;

verus! {

/// Why a call on the revocation set failed.
#[derive(Clone, Copy, Debug, PartialEq, Eq, Structural)]
pub enum BannedTokenStoreError {
    UnexpectedError,
}

/// A set of revoked token identifiers.
///
/// Its model is the set of their texts. What a method promises, it
/// promises of a store that is `faithful` to that model. A backend outside
/// verified code implements the methods alone and leaves `faithful` as it
/// is, `false`: it may fail for reasons of its own, and nothing is claimed
/// of it.
pub trait BannedTokenStore {
    /// The texts of the revoked identifiers.
    open spec fn tokens(&self) -> Set<Seq<char>> {
        Set::empty()
    }

    /// The store answers every call as its model decides, and changes the
    /// model only as the call says.
    open spec fn faithful(&self) -> bool {
        false
    }

    /// Revokes a token. Revoking one that is revoked already changes
    /// nothing and succeeds.
    fn add_token(&mut self, token: String) -> (added: Result<(), BannedTokenStoreError>)
        ensures
            old(self).faithful() ==> {
                &&& final(self).faithful()
                &&& added is Ok
                &&& final(self).tokens() == old(self).tokens().insert(token@)
            },
    ;

    /// Whether the token is revoked.
    fn contains_token(&self, token: &str) -> (found: Result<bool, BannedTokenStoreError>)
        ensures
            self.faithful() ==> found == Ok::<bool, BannedTokenStoreError>(
                self.tokens().contains(token@),
            ),
    ;
}

/// The revocation set held in memory.
pub struct BannedTokens {
    tokens: Vec<String>,
}

impl View for BannedTokens {
    type V = Set<Seq<char>>;

    closed spec fn view(&self) -> Set<Seq<char>> {
        Set::new(|text: Seq<char>| self.holds(text))
    }
}

impl BannedTokens {
    /// The text stands somewhere in the vector.
    spec fn holds(&self, text: Seq<char>) -> bool {
        exists|i: int| 0 <= i < self.tokens.len() && (#[trigger] self.tokens[i])@ == text
    }

    /// A set in which no token is revoked.
    pub fn new() -> (store: BannedTokens)
        ensures
            store@ == Set::<Seq<char>>::empty(),
    {
        let store = BannedTokens { tokens: Vec::new() };
        assert(store@ =~= Set::empty());
        store
    }

    /// Whether the text stands in the vector.
    fn has(&self, token: &String) -> (found: bool)
        ensures
            found == self@.contains(token@),
    {
        let mut i: usize = 0;
        while i < self.tokens.len()
            invariant
                i <= self.tokens.len(),
                forall|j: int| 0 <= j < i ==> (#[trigger] self.tokens[j])@ != token@,
            decreases self.tokens.len() - i,
        {
            if self.tokens[i] == *token {
                assert(self.holds(token@));
                return true;
            }
            i += 1;
        }
        false
    }
}

impl Default for BannedTokens {
    fn default() -> (store: BannedTokens)
        ensures
            store@ == Set::<Seq<char>>::empty(),
    {
        BannedTokens::new()
    }
}

impl BannedTokenStore for BannedTokens {
    open spec fn tokens(&self) -> Set<Seq<char>> {
        self@
    }

    open spec fn faithful(&self) -> bool {
        true
    }

    fn add_token(&mut self, token: String) -> (added: Result<(), BannedTokenStoreError>) {
        if self.has(&token) {
            assert(self@ =~= self@.insert(token@));
            return Ok(());
        }
        let ghost before = *self;
        self.tokens.push(token);
        proof {
            assert forall|text: Seq<char>| self.holds(text) <==> (before.holds(text) || text
                == token@) by {
                if before.holds(text) {
                    let i = choose|i: int|
                        0 <= i < before.tokens.len() && (#[trigger] before.tokens[i])@ == text;
                    assert(self.tokens[i]@ == text);
                }
                if text == token@ {
                    assert(self.tokens[before.tokens.len() as int]@ == text);
                }
            }
            assert(self@ =~= before@.insert(token@));
        }
        Ok(())
    }

    fn contains_token(&self, token: &str) -> (found: Result<bool, BannedTokenStoreError>) {
        let wanted = token.to_owned();
        Ok(self.has(&wanted))
    }
}

} // verus!
