pub mod auth;
pub mod kubernetes;
