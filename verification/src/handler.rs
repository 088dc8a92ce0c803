pub mod gitlab_oauth2;
pub mod kubernetes;
