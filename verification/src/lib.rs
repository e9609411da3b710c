//! A two-party, single-asset-pair escrow protocol, verified.
//!
//! One party (the initializer) locks a quantity of asset A into a custody
//! vault and declares a quantity of asset B wanted in return; a second party
//! (the taker) may atomically complete the swap, or the initializer may cancel
//! and reclaim custody before that happens. The three transitions —
//! initialize, accept, cancel — are ordinary synchronous functions over an
//! explicit in-memory picture of the ledger: the storage substrate that
//! persists accounts, verifies signatures and serializes conflicting
//! operations is an external collaborator, represented here by the context
//! value each transition receives and mutates all-or-nothing.

pub mod error;
pub mod instructions;
pub mod properties;
pub mod state;
pub mod token;

pub use instructions::accept_escrow::accept_escrow;
pub use instructions::cancel_escrow::cancel_escrow;
pub use instructions::initialize_escrow::initialize_escrow;
