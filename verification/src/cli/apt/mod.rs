//! APT commands of the client.
pub mod pkg;
