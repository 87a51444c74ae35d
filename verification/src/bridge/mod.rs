pub mod auth;
pub mod bootstrap;
pub mod crypto;
pub mod query;
