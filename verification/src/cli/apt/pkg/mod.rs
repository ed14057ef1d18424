//! Package commands of the client.
pub mod add;
