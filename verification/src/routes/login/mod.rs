//! The login route's decision core.

pub mod post;

pub use post::FormData;
pub use post::LoginError;
pub use post::login;
