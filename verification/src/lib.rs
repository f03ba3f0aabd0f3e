//! Verified core of the club drive service: configuration, identifiers,
//! files and folders with their trash, share links, and the decisions of the
//! HTTP handlers.
pub mod config;
pub mod digest;
pub mod encoding;
pub mod error;
pub mod ids;
pub mod node;
pub mod requests;
pub mod share;
pub mod space;
pub mod text;
