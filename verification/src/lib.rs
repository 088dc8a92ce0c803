pub mod config;
pub mod handler;
pub mod middleware;
pub mod model;
pub mod util;
