//! Typed client model for the Exetel customer web API.

pub mod auth;
pub mod client;
pub mod customer;
pub mod error;
pub mod http;
pub mod json;
pub mod text;

pub use auth::Authorization;
pub use client::Client;
pub use error::ApiError;
