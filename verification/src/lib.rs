//! A minimal HTTP server toolkit: an insertion-ordered path/method router
//! with first-match lookup, a write-once response lifecycle that emits the
//! status line and header block together with the body in one buffer, and
//! the fixed registry of status-code reason phrases.

pub mod request;
pub mod response;
pub mod router;
pub mod server;
pub mod status;
pub mod text;
