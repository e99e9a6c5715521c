//! Upstream attempts, configured URLs and typed upstream callbacks.

pub mod callback;
pub mod init;
pub mod peer;
pub mod peer_init;
pub mod state;
pub mod url;
