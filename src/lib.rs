//! Backend core of a desktop group manager for a social-platform API:
//! the error taxonomy, the credential store, the API client's request
//! building and response classification, and the command layer that
//! composes them.
use vstd::prelude::*;

pub mod commands;
pub mod error;
pub mod settings_store;
pub mod text;
pub mod token_store;
pub mod update_handler;
pub mod vrc_api;

pub use commands::{GroupResponse, LoginResponse, UserResponse};
pub use error::AppError;

verus! {

} // verus!
