//! A periodic raffle: entries are bought with a fixed price while a round is
//! open, and at a delayed settlement block a random ticket wins the pot.

pub mod types;
pub mod ledger;
pub mod host;
pub mod validate;
pub mod pallet;
pub mod laws;
pub mod weights;
pub mod threats;
