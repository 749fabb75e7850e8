//! The login of a client at an RPC broker: the parameters that a client
//! states, the credentials that a connection URL carries, and the handshake
//! of `hello` and `login` as a state machine that leaves sending, receiving
//! and the digest of the password to its caller.

pub mod client;
pub mod credentials;
pub mod handshake;
pub mod message;
pub mod text;
pub mod value;
