//! Scan credentials and the checkpoint engine that applies a scanned
//! credential to a participation.

pub mod issuer;
pub mod laws;
pub mod models;
pub mod scan;
pub mod token;
