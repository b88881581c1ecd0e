pub mod auth;
pub mod token;
pub mod validation;
