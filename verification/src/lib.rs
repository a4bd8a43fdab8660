//! The verified core of sshhub: the hub's identity and key derivation, the
//! byte sink behind each SSH session's terminal, and the decisions of the
//! bridge that carries a session to an upstream game server.
pub mod derived;
pub mod identity;
pub mod config;
pub mod bridge;
pub mod writer;
pub mod server;
