pub mod accept_escrow;
pub mod cancel_escrow;
pub mod initialize_escrow;
