//! Credential-based registration, login and session handling for a small
//! web application, with the decisions of each request verified.

pub mod model;
pub mod text;
pub mod validate;
pub mod password;
pub mod session;
pub mod response;
pub mod store;
pub mod flow;
pub mod laws;
