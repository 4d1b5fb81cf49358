//! Credential verification and the access gate for the protected area.

pub mod middleware;
pub mod password;

pub use middleware::UserId;
pub use middleware::reject_anonymous_users;
pub use password::AuthError;
pub use password::Credentials;
pub use password::UserStore;
pub use password::validate_credentials;
