//! Credential-based authentication and session lifecycle: identifier
//! validation, password hashing, registration and login against an identity
//! store, and issuing, rotating, extending and expiring session tokens.

pub mod authentication;
pub mod cookie;
pub mod errors;
pub mod forms;
pub mod laws;
pub mod password;
pub mod places;
pub mod records;
pub mod registration;
pub mod server;
pub mod sessions;
pub mod store;
pub mod token;
pub mod ui;
