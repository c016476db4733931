//! Threshold ECDSA ceremonies over an untrusted relay: per-peer channel
//! registry, session lifecycle, round message routing, and the GG20
//! key-generation and signing drivers.

pub mod address;
pub mod bytes;
pub mod ceremony;
pub mod driver;
pub mod ecdsa;
pub mod gg20;
pub mod peer;
pub mod router;
pub mod session;
pub mod types;
