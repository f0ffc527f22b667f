//! A build daemon's verified core: the message schema, the server's
//! request dispatch and stream-draining decisions, and the client's
//! truncating renderer of build output.
pub mod buffer;
pub mod client;
pub mod protocol;
pub mod server;
