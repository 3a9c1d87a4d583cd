//! Encrypted peer-to-peer transport over UDP: message framing, NAT hole
//! punching, STUN address discovery, AEAD ciphers and a seedable block RNG.
pub mod cipher;
pub mod config;
pub mod err;
pub mod frame;
pub mod punch;
pub mod rng;
pub mod stun;
