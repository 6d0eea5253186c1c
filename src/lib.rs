//! Turns request parameters into ready-to-submit instructions for the token
//! and system programs, and signs or verifies text messages with Ed25519 keys.
//! Apart from generating a fresh keypair, every function here is a pure
//! transformation; transport and response envelopes live outside.

pub mod codec;
pub mod signing;
pub mod instruction;
pub mod request;
pub mod send;
pub mod mint_token;
pub mod create_token;
pub mod sign;
pub mod keypair;
pub mod laws;
