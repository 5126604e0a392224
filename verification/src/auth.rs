//! The session authority: login, the session credential, and the single
//! entry point by which every request is authenticated.

pub mod account;
pub mod cookie;
pub mod guard;
pub mod headers;
pub mod login;
pub mod models;
pub mod password;
pub mod recovery;
pub mod token;
