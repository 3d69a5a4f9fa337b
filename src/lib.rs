//! Authentication and ownership core of a small multi-tenant project store:
//! password hashing, signed identity tokens, token extraction from request
//! metadata, identity resolution and the per-resource ownership guard.

pub mod text;

pub mod api;
pub mod config;
pub mod content_type;
pub mod credential;
pub mod extract;
pub mod models;
pub mod ownership;
pub mod resolve;
pub mod token;

pub use api::ApiError;
pub use config::Config;
pub use content_type::get_content_type;
pub use credential::{hash_password, verify_password, CredentialError};
pub use extract::{extract_token, RequestMeta};
pub use models::{CreateProjectRequest, LoginRequest, ProjectSummary, RegisterRequest};
pub use ownership::{authorize, OwnershipError};
pub use resolve::{extract_uid_from_headers, resolve_identity_at};
pub use token::{generate_jwt_token, validate_jwt_token, AuthError, Claims, SigningError};
