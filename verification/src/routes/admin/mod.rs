//! The protected area: everything here runs only behind the access gate,
//! which is the sole source of a `UserId`.

pub mod dashboard;
pub mod logout;
pub mod password;

pub use dashboard::admin_dashboard;
pub use logout::log_out;
pub use password::change_password;
