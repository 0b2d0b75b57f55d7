//! Value objects shared by every component.

pub mod creds;
pub mod data_stores;
pub mod error;
pub mod user;

pub use creds::{Email, Password};
pub use data_stores::{UserStore, UserStoreError};
pub use error::{AuthApiError, ErrorResponse};
pub use user::{User, UserView};
