pub mod auth;
pub mod text;
