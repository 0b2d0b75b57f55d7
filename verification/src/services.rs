//! The stores and what they hold.

pub mod redis_two_fa_code_store;
pub mod tokens;
pub mod two_fa;
pub mod user_data_store;

pub use tokens::{BannedTokenStore, BannedTokenStoreError, BannedTokens};
pub use two_fa::{
    LoginId, TwoFaCode, TwoFaCodeError, TwoFaCodeStore, TwoFaCodes, CHALLENGE_TTL_SECONDS,
};
pub use user_data_store::UserDataStore;
