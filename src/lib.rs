//! Authentication core for a web backend: the token bundle and its compact
//! bearer encoding, the per-session login flow, the request guard and the
//! rejection taxonomy.

pub mod token;
pub mod errors;
pub mod provider;
pub mod session;
pub mod guard;
