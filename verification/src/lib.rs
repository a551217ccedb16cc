//! Verified core of a game backend: accounts, session tokens, friendships and
//! leaderboards. The decisions of every route live here; the HTTP server and the
//! database queries that carry them out live in the application crate.
pub mod trusted;
pub mod structs;
pub mod utils;
pub mod errors;
pub mod answer;
pub mod friendship;
pub mod models;
