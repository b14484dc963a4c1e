//! Request routing and shared score keeping for a small game server.
//!
//! The crate holds the decisions of the server as verified functions on plain
//! values: which handler a path reaches, how submissions are counted and when
//! the tally is handed on to the leaderboard, what each endpoint answers, and
//! what the access log says. Sockets, threads and page markup live with the
//! caller.

pub mod access_log;
pub mod clock;
pub mod endpoints;
pub mod http;
pub mod identity;
pub mod json;
pub mod router;
pub mod score;
pub mod submission;
pub mod table;
