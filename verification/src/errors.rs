//! What can go wrong in an order operation.

use vstd::prelude::*;

verus! {

/// Failures that the escrow protocol itself reports.
#[derive(Clone, Copy, Debug, PartialEq, Eq, Structural)]
pub enum EscrowError {
    /// Amount overflowed by an operation.
    AmountOverflow,
    /// Expected amount does not match actual amount.
    ExpectedAmountMismatch,
    /// An account's data contents was invalid.
    InvalidAccountData,
}

/// Failures that the ledger and its asset-custody service report.
#[derive(Clone, Copy, Debug, PartialEq, Eq, Structural)]
pub enum LedgerError {
    /// No account exists at the address.
    AccountNotFound,
    /// An account already exists at the address.
    AccountInUse,
    /// The account is not of the kind that the operation works on, or an
    /// escrow record in it was never initialized.
    InvalidAccountKind,
    /// The authorizing identity does not control the account.
    AuthorityMismatch,
    /// The account holds less than the amount to move out of it.
    InsufficientFunds,
    /// The receiving balance would exceed the largest amount an account holds.
    Overflow,
    /// An asset account can only be closed once its balance is zero.
    NonZeroBalance,
    /// An account cannot be closed into itself.
    SameAccount,
    /// The seeds shown for a derived authority do not derive it.
    UnauthorizedSigner,
    /// The seeds derive no address.
    InvalidSeeds,
    /// The seeds derive another address than the one presented.
    SeedsMismatch,
}

/// The failure of an order operation.
#[derive(Clone, Copy, Debug, PartialEq, Eq, Structural)]
pub enum OrderError {
    /// A rule of the escrow protocol was broken.
    Escrow(EscrowError),
    /// The ledger refused a step of the operation.
    Ledger(LedgerError),
}

impl EscrowError {
    /// The message that describes the error.
    pub fn message(&self) -> (s: &'static str)
        ensures
            s@ == (match *self {
                EscrowError::AmountOverflow => "Amount overflowed by an operation"@,
                EscrowError::ExpectedAmountMismatch => "Expected amount does not match actual amount"@,
                EscrowError::InvalidAccountData => "An account's data contents was invalid"@,
            }),
    {
        match self {
            EscrowError::AmountOverflow => "Amount overflowed by an operation",
            EscrowError::ExpectedAmountMismatch => "Expected amount does not match actual amount",
            EscrowError::InvalidAccountData => "An account's data contents was invalid",
        }
    }
}

} // verus!
