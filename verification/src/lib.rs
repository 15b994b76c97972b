//! Ledger contracts with machine-checked behaviour.
//!
//! The heart of the crate is [`escrow`]: a marketplace that holds a seller's
//! asset and a buyer's payment until both legs of a trade settle together.
//! Every operation is a function from a store snapshot to the next snapshot
//! and a list of instructions for the hosting ledger; the functions never
//! perform an instruction themselves.
//!
//! Beside it stand four small contracts: [`election`] (votes within a
//! window of chain heights, and their tally), [`lifecycle`] (an owner's
//! switch to freeze, unfreeze or destroy a contract), [`counter`] (a number
//! guarded by such a switch) and [`collector`] (a register of callers).
//!
//! None of the functions reads or writes storage: the host hands in what it
//! loaded and stores what comes back.

pub mod collector;
pub mod counter;
pub mod election;
pub mod escrow;
pub mod lifecycle;
