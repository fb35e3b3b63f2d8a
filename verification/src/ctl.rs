//! The command-line client's side of the command socket: request
//! identifiers, the requests built from the user's arguments, and what the
//! client does with each reply.
pub mod ids;
pub mod queries;
pub mod reply;
pub mod metrics;
pub mod upgrade;
pub mod laws;
