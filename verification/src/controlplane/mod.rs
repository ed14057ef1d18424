//! The first control plane: its API handlers' index rendering, object keys, release
//! files and publication plans, and its token hashing.
pub mod auth;
pub mod indexes;
pub mod server;
pub mod sign;
