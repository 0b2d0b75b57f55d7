//! Validation of a session token that was issued earlier.

use crate::domain::error::AuthApiError;
use crate::services::tokens::{BannedTokenStore, BannedTokenStoreError};
use vstd::prelude::*;

verus! {

/// What the token service read from a token whose signature and expiry it
/// found in order: the email it is bound to and its identifier.
#[derive(Debug)]
pub struct TokenClaims {
    pub email: String,
    pub token_id: String,
}

/// Whether a token is accepted: the token service vouches for it, and its
/// identifier is not revoked.
pub open spec fn token_accepted(revoked: Set<Seq<char>>, claims: Option<TokenClaims>) -> bool {
    match claims {
        Some(read) => !revoked.contains(read.token_id@),
        None => false,
    }
}

/// Revocation is permanent. Once an identifier is revoked, a token that
/// carries it is rejected in every later state of the set, which only
/// grows, though the token service vouches for the token.
pub proof fn lemma_revoked_token_stays_rejected(
    revoked: Set<Seq<char>>,
    later: Set<Seq<char>>,
    claims: TokenClaims,
)
    requires
        revoked.insert(claims.token_id@).subset_of(later),
    ensures
        !token_accepted(revoked.insert(claims.token_id@), Some(claims)),
        !token_accepted(later, Some(claims)),
{
}

/// What the revocation set's answer means for a token that the token
/// service vouches for: it passes only where the set answers that the
/// token is not revoked. A set that failed rejects it.
pub fn revocation_checked(revoked: Result<bool, BannedTokenStoreError>) -> (answer: Result<
    u16,
    AuthApiError,
>)
    ensures
        answer == match revoked {
            Ok(false) => Ok::<u16, AuthApiError>(200),
            _ => Err::<u16, AuthApiError>(AuthApiError::InvalidToken),
        },
{
    match revoked {
        Ok(false) => Ok(200),
        _ => Err(AuthApiError::InvalidToken),
    }
}

/// Accepts or rejects a token, given what the token service made of it
/// (`None` where it did not vouch for it).
///
/// A token that the service does not vouch for is rejected by any store,
/// and the store is only read. What the store answers is judged by
/// `revocation_checked`. With a faithful store a token is accepted exactly
/// where the service vouches for it and its identifier is not revoked: a
/// revoked token is rejected though its signature is in order.
pub fn verify_token<B: BannedTokenStore>(banned_token_store: &B, claims: Option<TokenClaims>) -> (answer:
    Result<u16, AuthApiError>)
    ensures
        match answer {
            Ok(status) => status == 200 && claims is Some,
            Err(error) => error == AuthApiError::InvalidToken,
        },
        banned_token_store.faithful() ==> (answer is Ok <==> token_accepted(
            banned_token_store.tokens(),
            claims,
        )),
{
    let read = match claims {
        Some(read) => read,
        None => return Err(AuthApiError::InvalidToken),
    };
    revocation_checked(banned_token_store.contains_token(read.token_id.as_str()))
}

} // verus!
