//! A terminal chat over a publish/subscribe broker: the session's decisions,
//! its configuration, and the broker clients' settings.

pub mod client;
pub mod config;
pub mod session;
