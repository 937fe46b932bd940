//! An atomic token-swap escrow: a maker locks an asset in a custody account
//! and names a price, a taker settles the trade in one step, or the maker
//! cancels and takes the asset back.

pub mod address;
pub mod errors;
pub mod state;
pub mod store;
pub mod ledger;
pub mod instructions;
pub mod orders;
pub mod laws;

pub use crate::errors::{EscrowError, LedgerError, OrderError};
pub use crate::instructions::{CancelOrder, MakeOrder, TakeOrder};
pub use crate::orders::{cancel_order, make_order, take_order};
pub use crate::state::Escrow;
