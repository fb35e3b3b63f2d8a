//! Request cookie parsing for the HTTP proxy, and the decisions of the
//! command-line client that talks to the proxy over its command socket.
pub mod cookies;
pub mod ctl;
