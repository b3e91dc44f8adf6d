//! A two-party token-swap escrow: a maker locks an amount of one asset in a
//! vault whose authority is derived from the offer's own address, and either a
//! taker who pays the wanted amount of another asset receives it, or the maker
//! takes it back. Each handler checks every account before any balance moves.

pub mod address;
pub mod escrow;
pub mod laws;

pub use address::{vault_address, Address};
pub use escrow::{
    accept, cancel, make, Accept, Cancel, Escrow, EscrowError, Make, Offer, OfferState,
    TokenAccount,
};
