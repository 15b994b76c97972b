//! Escrow marketplace: orders move from `PENDING` to `PAID` or `REVOKE`,
//! and each move tells the host which funds and assets to transfer.

pub mod coin;
pub mod error;
pub mod state;
pub mod engine;
pub mod msg;
pub mod emitter;
pub mod contract;
pub mod laws;
