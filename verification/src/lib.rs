//! Attendance authentication for campus activities: session and scan
//! credentials, and the check-in / check-out rules applied to a scanned
//! credential.

pub mod activities;
pub mod admins;
pub mod auth;
pub mod claims;
pub mod clock;
pub mod codec;
pub mod departments;
pub mod ident;
pub mod model;
pub mod models;
pub mod notifications;
pub mod organizations;
pub mod qr;
pub mod store;
pub mod text;
pub mod users;
