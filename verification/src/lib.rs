//! A search for text across the repositories of a GitLab host, without
//! cloning any of them.
//!
//! The library decides and the caller does the talking: a listing or a search
//! says which request is due, takes what came back, and says what follows.
//! The fan-out says which search to start next and gathers what the ended
//! ones have found.

pub mod client;
pub mod decimal;
pub mod error;
pub mod fanout;
pub mod http;
pub mod listing;
pub mod models;
pub mod render;
pub mod search;
pub mod text;
