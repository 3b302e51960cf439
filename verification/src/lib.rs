//! Authentication core of a desktop client: credential hashing, account
//! registration with uniqueness guarantees, a local session-token cache and
//! throttled, user-safe error reporting.

pub mod accounts;
pub mod clock;
pub mod concurrency;
pub mod config;
pub mod coordinator;
pub mod errors;
pub mod models;
pub mod password;
pub mod register;
pub mod remote;
pub mod text;
pub mod text_map;
pub mod throttle;
pub mod tokens;
pub mod window;
