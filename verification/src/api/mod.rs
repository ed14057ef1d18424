//! The HTTP API's shared vocabulary: status codes, error responses, authentication,
//! and the escaping of path segments.
pub mod auth;
pub mod error;
pub mod path;

pub use auth::TenantID;
pub use error::{ErrorResponse, StatusCode};
