//! The accounts that each order operation is called with.

use crate::address::Address;
use vstd::prelude::*;

verus! {

/// The accounts of a cancellation.
#[derive(Clone, Copy, Debug)]
pub struct CancelOrder {
    /// The maker, who authorizes the cancellation and receives the stakes.
    pub maker: Address,
    /// The record of the trade.
    pub escrow: Address,
    /// The custody account that holds the locked asset.
    pub escrow_token_account: Address,
    /// The asset account of the maker that takes the asset back.
    pub maker_send_token_account: Address,
}

/// The accounts of the making of an order.
#[derive(Clone, Copy, Debug)]
pub struct MakeOrder {
    /// The maker, who authorizes the order and pays for the record.
    pub maker: Address,
    /// The address at which the record is created.
    pub escrow: Address,
    /// The custody account, funded by the maker with the asset to sell.
    pub escrow_token_account: Address,
    /// The asset account of the maker that is to receive the payment.
    pub maker_receive_token_account: Address,
}

/// The accounts of the taking of an order.
#[derive(Clone, Copy, Debug)]
pub struct TakeOrder {
    /// The record of the trade.
    pub escrow: Address,
    /// The custody account that holds the locked asset.
    pub escrow_token_account: Address,
    /// The maker, who receives the stakes of the closed accounts.
    pub maker: Address,
    /// The asset account of the maker that receives the payment.
    pub maker_receive_token_account: Address,
    /// The taker, who authorizes the payment.
    pub taker: Address,
    /// The asset account that the taker pays from.
    pub taker_send_token_account: Address,
    /// The asset account of the taker that receives the locked asset.
    pub taker_receive_token_account: Address,
}

} // verus!
