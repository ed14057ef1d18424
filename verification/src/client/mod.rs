//! The `attune` command-line client: requests, retries, replies and commands.
pub mod cmd;
pub mod http;
pub mod retry;
pub mod signing;
