//! A two-party encrypted relay: AES-256-GCM message codec, nonce-prefixed
//! framing, connection pairing and the per-session relay decisions.

pub mod codec;
pub mod frame;
pub mod relay;
pub mod pairing;
