//! A randomness-beacon core: a Joint-Feldman distributed key generation
//! engine, a shared broadcast board that synchronizes its phases, a
//! threshold-BLS signing facade, and the coordinating controller state
//! machine that sequences node registration, key generation, commitment,
//! randomness requests and fulfilment.

pub mod board;
pub mod controller;
pub mod crypto;
pub mod dkg;
pub mod error;
pub mod group;
pub mod sig;
pub mod util;
