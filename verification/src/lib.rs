//! Core of a hardware-crypto HAL service: the framed transport protocol that
//! carries serialized calls to a trusted application over one shared channel,
//! and the state machine governing symmetric cryptographic operation sessions.

pub mod dma_emitting;
pub mod errors;
pub mod operations;
pub mod session;
pub mod transport;
