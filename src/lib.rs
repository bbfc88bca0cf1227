//! A client library for the Mastodon REST API: the OAuth registration flow,
//! authenticated request dispatch with success/error discrimination, and
//! link-driven pagination.
pub mod endpoints;
pub mod error;
pub mod json;
pub mod page;
pub mod registration;
pub mod response;
pub mod session;
pub mod text;

pub use error::{ApiError, Error};
pub use page::Page;
pub use registration::Registration;
pub use session::{Data, Mastodon};
