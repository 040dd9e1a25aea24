//! A chat-platform bot library that converts commit and compare URLs into
//! issue drafts filed against a destination repository.
//!
//! The library holds the decision logic: URL shape classification, request
//! URL and header construction, issue-draft derivation, the throttled filing
//! plan, and the event-routing decisions. The surrounding binary performs the
//! network calls and timing that these decisions call for.

pub mod github;
pub mod router;
pub mod strutil;
pub mod types;
