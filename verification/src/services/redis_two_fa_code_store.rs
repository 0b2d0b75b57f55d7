//! How a challenge is laid out in a cache: the key it is stored under,
//! the value that holds the pair, and how long it may live.
//!
//! The cache itself is reached over the network and is not part of this
//! library. A backend computes the entry here, writes it, and hands back
//! here what it read.

use crate::domain::creds::Email;
use crate::services::two_fa::{
    is_code_text,
    LoginId,
    TwoFaCode,
    TwoFaCodeError,
    CHALLENGE_TTL_SECONDS,
};
use vstd::prelude::*;

verus! {

/// The time a challenge may live in the cache: ten minutes, as in every
/// store.
pub const TEN_MINUTES_IN_SECONDS: u64 = CHALLENGE_TTL_SECONDS;

/// What every key of a challenge begins with.
pub open spec fn key_prefix() -> Seq<char> {
    "two_fa_code:"@
}

/// The JSON text that `serde_json` writes for a pair of strings, an array
/// of the two: what `serde_json::to_string` returns for the pair, `None`
/// where it fails.
pub uninterp spec fn pair_json(first: Seq<char>, second: Seq<char>) -> Option<Seq<char>>;

/// The pair of strings that `serde_json` reads from a JSON text: what
/// `serde_json::from_str` returns for it at the type of a pair of strings,
/// `None` where it fails.
pub uninterp spec fn json_pair(text: Seq<char>) -> Option<(Seq<char>, Seq<char>)>;

/// Calls `serde_json::to_string` on a pair of strings.
///
/// Trusted: the result depends on the two strings alone.
#[verifier::external_body]
fn to_json(first: &str, second: &str) -> (text: Option<String>)
    ensures
        match text {
            Some(written) => pair_json(first@, second@) == Some(written@),
            None => pair_json(first@, second@) is None,
        },
{
    match serde_json::to_string(&(first, second)) {
        Ok(written) => Some(written),
        Err(_) => None,
    }
}

/// Calls `serde_json::from_str` for a pair of strings.
///
/// Trusted: the result depends on the text alone.
#[verifier::external_body]
fn from_json(text: &str) -> (pair: Option<(String, String)>)
    ensures
        match pair {
            Some((first, second)) => json_pair(text@) == Some((first@, second@)),
            None => json_pair(text@) is None,
        },
{
    match serde_json::from_str::<(String, String)>(text) {
        Ok(read) => Some(read),
        Err(_) => None,
    }
}

/// What is written to the cache for one challenge.
#[derive(Debug)]
pub struct CacheEntry {
    pub key: String,
    pub value: String,
    pub ttl_seconds: u64,
}

/// The key under which the challenge of an email is stored: the prefix,
/// then the email.
pub fn get_key(email: &Email) -> (key: String)
    ensures
        key@ == key_prefix() + email@,
{
    let mut key = "two_fa_code:".to_owned();
    key.append(email.as_ref());
    key
}

/// The cache entry for a challenge: its key, the pair as JSON, and the
/// ten minutes after which it expires.
pub fn encode_challenge(email: &Email, login_id: &LoginId, code: &TwoFaCode) -> (encoded: Result<
    CacheEntry,
    TwoFaCodeError,
>)
    ensures
        match encoded {
            Ok(entry) => {
                &&& entry.key@ == key_prefix() + email@
                &&& pair_json(login_id@, code@) == Some(entry.value@)
                &&& entry.ttl_seconds == TEN_MINUTES_IN_SECONDS
            },
            Err(error) => {
                &&& error == TwoFaCodeError::UnexpectedError
                &&& pair_json(login_id@, code@) is None
            },
        },
{
    match to_json(login_id.as_ref(), code.as_ref()) {
        Some(value) => Ok(
            CacheEntry { key: get_key(email), value, ttl_seconds: TEN_MINUTES_IN_SECONDS },
        ),
        None => Err(TwoFaCodeError::UnexpectedError),
    }
}

/// What a read of the cache under a key came to.
#[derive(Debug)]
pub enum CacheRead {
    /// The cache could not be read.
    Failed,
    /// The cache holds nothing under the key.
    Nothing,
    /// The value that the cache holds under the key.
    Value(String),
}

/// What a read of the cache comes to: the challenge that the value holds;
/// no challenge where the cache holds nothing; an error where the cache
/// could not be read or the value is not a pair of a login id and a code.
pub open spec fn decoded(read: CacheRead) -> Result<(Seq<char>, Seq<char>), TwoFaCodeError> {
    match read {
        CacheRead::Failed => Err(TwoFaCodeError::UnexpectedError),
        CacheRead::Nothing => Err(TwoFaCodeError::LoginAttemptIdNotFound),
        CacheRead::Value(value) => match json_pair(value@) {
            None => Err(TwoFaCodeError::UnexpectedError),
            Some((id, code)) => if LoginId::spec_parse(id) is Some && is_code_text(code) {
                Ok((LoginId::spec_parse(id)->0, code))
            } else {
                Err(TwoFaCodeError::UnexpectedError)
            },
        },
    }
}

/// Reads a challenge from what the cache returned for its key.
pub fn decode_challenge(read: CacheRead) -> (challenge: Result<
    (LoginId, TwoFaCode),
    TwoFaCodeError,
>)
    ensures
        match challenge {
            Ok((login_id, code)) => decoded(read) == Ok::<
                (Seq<char>, Seq<char>),
                TwoFaCodeError,
            >((login_id@, code@)),
            Err(error) => decoded(read) == Err::<(Seq<char>, Seq<char>), TwoFaCodeError>(error),
        },
{
    let value = match read {
        CacheRead::Failed => return Err(TwoFaCodeError::UnexpectedError),
        CacheRead::Nothing => return Err(TwoFaCodeError::LoginAttemptIdNotFound),
        CacheRead::Value(value) => value,
    };
    let (id, code) = match from_json(value.as_str()) {
        Some(pair) => pair,
        None => return Err(TwoFaCodeError::UnexpectedError),
    };
    let login_id = match LoginId::parse(id) {
        Ok(login_id) => login_id,
        Err(_) => return Err(TwoFaCodeError::UnexpectedError),
    };
    let code = match TwoFaCode::parse(code) {
        Ok(code) => code,
        Err(_) => return Err(TwoFaCodeError::UnexpectedError),
    };
    Ok((login_id, code))
}

/// What deleting a key from the cache comes to, given the number of keys
/// that the cache says it deleted (`None` where the cache could not be
/// reached): the challenge is removed where a key was deleted, there was
/// none where no key was, and an error where the cache failed.
pub fn removal_answer(deleted: Option<u64>) -> (removed: Result<(), TwoFaCodeError>)
    ensures
        removed == match deleted {
            None => Err::<(), TwoFaCodeError>(TwoFaCodeError::UnexpectedError),
            Some(count) => if count == 0 {
                Err::<(), TwoFaCodeError>(TwoFaCodeError::LoginAttemptIdNotFound)
            } else {
                Ok::<(), TwoFaCodeError>(())
            },
        },
{
    match deleted {
        None => Err(TwoFaCodeError::UnexpectedError),
        Some(0) => Err(TwoFaCodeError::LoginAttemptIdNotFound),
        Some(_) => Ok(()),
    }
}

} // verus!
