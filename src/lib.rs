//! A proxy in front of an SSH agent that makes every added key require
//! interactive confirmation. This crate holds the proxy's decisions: how a
//! request is rewritten, when a session is done, where the backend agent
//! listens, and the steps that set up and tear down the listening socket.
pub mod launcher;
pub mod laws;
pub mod lifecycle;
pub mod request;
pub mod session;
