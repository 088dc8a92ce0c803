pub mod jwt;
pub mod strings;
pub mod time_helper;
