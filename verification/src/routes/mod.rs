//! The decisions taken by the HTTP handlers.

pub mod rss;
pub mod submit;
pub mod webauthn;
