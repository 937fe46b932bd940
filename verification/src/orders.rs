//! The three order operations: make, take and cancel.
//!
//! Each is one transaction on the ledger: it takes effect as a whole, or it
//! fails and the ledger is as it was before.
//!
//! An operation depends on addresses derived from seeds. `make_order`,
//! `take_order` and `cancel_order` derive them; `make_order_with`,
//! `take_order_with` and `cancel_order_with` take them as arguments and do
//! everything else.

use crate::address::{
    address_bytes, canonical_address, derive_address, find_address, found_bytes, is_address,
    lemma_address_by_view, program_address, with_bump, Address,
};
use crate::errors::{EscrowError, LedgerError, OrderError};
use crate::instructions::{CancelOrder, MakeOrder, TakeOrder};
use crate::laws::{
    asset_returned, custody_apart, law_cancel_order_returns, law_make_order_locks_custody,
    law_made_record_derives_its_address, law_take_order_settles, order_open, trade_settled,
};
use crate::ledger::{
    allocate_effect, close_effect, record_at, release_effect, set_authority_effect, settled,
    token_at, transfer_effect, Accounts, Ledger,
};
use crate::state::{bumped_seed_list, order_seed_list, order_seeds, record_seeds, Escrow};
use vstd::prelude::*;

verus! {

/// The result of a step of the ledger, as a result of an order operation.
pub open spec fn lift(r: Result<Accounts, LedgerError>) -> Result<Accounts, OrderError> {
    match r {
        Ok(m) => Ok(m),
        Err(e) => Err(OrderError::Ledger(e)),
    }
}

/// Whether the terms that a taker presents are those of the record: the
/// amount confirmed must be the maker's amount, and the receiving account
/// must be the one that the record names. The amount is looked at first.
pub open spec fn terms_checked(record: Escrow, maker_amount: u64, receiver: Address) -> Result<
    (),
    EscrowError,
> {
    if record.maker_amount != maker_amount {
        Err(EscrowError::ExpectedAmountMismatch)
    } else if record.maker_receive_token_account != receiver {
        Err(EscrowError::InvalidAccountData)
    } else {
        Ok(())
    }
}

/// Checks the terms that a taker presents against the record.
pub fn check_terms(record: &Escrow, maker_amount: u64, receiver: &Address) -> (r: Result<
    (),
    EscrowError,
>)
    ensures
        r == terms_checked(*record, maker_amount, *receiver),
{
    if record.maker_amount != maker_amount {
        Err(EscrowError::ExpectedAmountMismatch)
    } else if record.maker_receive_token_account != *receiver {
        Err(EscrowError::InvalidAccountData)
    } else {
        Ok(())
    }
}

/// The record that making an order writes.
pub open spec fn new_record(m: Accounts, accounts: MakeOrder, taker_amount: u64, bump: u8) -> Escrow {
    Escrow {
        bump,
        is_initialized: true,
        maker: accounts.maker,
        maker_amount: token_at(m, accounts.escrow_token_account)->Ok_0.amount,
        maker_receive_token_account: accounts.maker_receive_token_account,
        taker_amount,
        token_account: accounts.escrow_token_account,
    }
}

/// What making an order does to the accounts, where `found` is the
/// canonical address derived from the custody account, the maker and the
/// price, with its bump seed.
///
/// The custody account and the maker's receiving account must be asset
/// accounts, and the record's address must be the derived one. The record
/// is then allocated there, at the maker's expense, with the custody
/// account's balance as the maker's amount, and the custody account passes
/// from the maker to the record.
pub open spec fn make_order_outcome(
    m: Accounts,
    stake: u64,
    accounts: MakeOrder,
    taker_amount: u64,
    found: Option<(Seq<u8>, u8)>,
) -> Result<Accounts, OrderError> {
    match (
        token_at(m, accounts.escrow_token_account),
        token_at(m, accounts.maker_receive_token_account),
    ) {
        (Err(e), _) => Err(OrderError::Ledger(e)),
        (_, Err(e)) => Err(OrderError::Ledger(e)),
        (Ok(_), Ok(_)) => match found {
            None => Err(OrderError::Ledger(LedgerError::InvalidSeeds)),
            Some((address, bump)) => if address != accounts.escrow@ {
                Err(OrderError::Ledger(LedgerError::SeedsMismatch))
            } else {
                match allocate_effect(
                    m,
                    accounts.escrow,
                    accounts.maker,
                    stake,
                    new_record(m, accounts, taker_amount, bump),
                ) {
                    Err(e) => Err(OrderError::Ledger(e)),
                    Ok(allocated) => lift(
                        set_authority_effect(
                            allocated,
                            accounts.escrow_token_account,
                            accounts.maker,
                            accounts.escrow,
                        ),
                    ),
                }
            },
        },
    }
}

/// What emptying and tearing down a trade does to the accounts, where
/// `shown` is the address that the record's own seeds derive.
///
/// The seeds must derive the record's address: that is what lets the
/// operation act under the record's authority. Then the whole balance of
/// the custody account goes to `receiver`, the custody account is closed
/// into `maker`, and the record is released into `maker`.
pub open spec fn teardown_outcome(
    m: Accounts,
    escrow: Address,
    custody: Address,
    receiver: Address,
    maker: Address,
    shown: Option<Seq<u8>>,
) -> Result<Accounts, OrderError> {
    match token_at(m, custody) {
        Err(e) => Err(OrderError::Ledger(e)),
        Ok(held) => if shown != Some(escrow@) {
            Err(OrderError::Ledger(LedgerError::UnauthorizedSigner))
        } else {
            match transfer_effect(m, custody, receiver, escrow, held.amount) {
                Err(e) => Err(OrderError::Ledger(e)),
                Ok(emptied) => match close_effect(emptied, custody, maker, escrow) {
                    Err(e) => Err(OrderError::Ledger(e)),
                    Ok(closed) => release_effect(closed, escrow, maker),
                },
            }
        },
    }
}

/// What taking an order does to the accounts, where `presented` is the
/// address derived from the custody account and the maker that were
/// presented with the price and bump seed of the record, and `shown` is the
/// address that the record's own seeds derive.
///
/// The record must exist, the terms must be those of the record, and the
/// record's address must be the one derived from what was presented. Then
/// the taker pays the price to the maker's receiving account and the trade
/// is torn down in favour of the taker's receiving account.
pub open spec fn take_order_outcome(
    m: Accounts,
    accounts: TakeOrder,
    maker_amount: u64,
    presented: Option<Seq<u8>>,
    shown: Option<Seq<u8>>,
) -> Result<Accounts, OrderError> {
    match record_at(m, accounts.escrow) {
        Err(e) => Err(OrderError::Ledger(e)),
        Ok(record) => match terms_checked(
            record,
            maker_amount,
            accounts.maker_receive_token_account,
        ) {
            Err(e) => Err(OrderError::Escrow(e)),
            Ok(_) => if presented != Some(accounts.escrow@) {
                Err(OrderError::Ledger(LedgerError::SeedsMismatch))
            } else {
                match transfer_effect(
                    m,
                    accounts.taker_send_token_account,
                    accounts.maker_receive_token_account,
                    accounts.taker,
                    record.taker_amount,
                ) {
                    Err(e) => Err(OrderError::Ledger(e)),
                    Ok(paid) => teardown_outcome(
                        paid,
                        accounts.escrow,
                        accounts.escrow_token_account,
                        accounts.taker_receive_token_account,
                        accounts.maker,
                        shown,
                    ),
                }
            },
        },
    }
}

/// What cancelling an order does to the accounts, where `presented` and
/// `shown` are as for the taking of an order.
///
/// The record must exist and its address must be the one derived from what
/// was presented. Then the trade is torn down in favour of the maker's own
/// asset account.
pub open spec fn cancel_order_outcome(
    m: Accounts,
    accounts: CancelOrder,
    presented: Option<Seq<u8>>,
    shown: Option<Seq<u8>>,
) -> Result<Accounts, OrderError> {
    match record_at(m, accounts.escrow) {
        Err(e) => Err(OrderError::Ledger(e)),
        Ok(_) => if presented != Some(accounts.escrow@) {
            Err(OrderError::Ledger(LedgerError::SeedsMismatch))
        } else {
            teardown_outcome(
                m,
                accounts.escrow,
                accounts.escrow_token_account,
                accounts.maker_send_token_account,
                accounts.maker,
                shown,
            )
        },
    }
}

/// The seeds that the accounts presented for a record must derive its
/// address from: the custody account and the maker as presented, the price
/// and the bump seed as the record holds them.
pub open spec fn presented_seeds(record: Escrow, custody: Address, maker: Address) -> Seq<Seq<u8>> {
    with_bump(order_seeds(custody, maker, record.taker_amount), record.bump)
}

/// What making an order does to the accounts of a ledger that runs the
/// program at `program_id`.
pub open spec fn make_order_effect(
    m: Accounts,
    program_id: Address,
    stake: u64,
    accounts: MakeOrder,
    taker_amount: u64,
) -> Result<Accounts, OrderError> {
    make_order_outcome(
        m,
        stake,
        accounts,
        taker_amount,
        canonical_address(
            order_seeds(accounts.escrow_token_account, accounts.maker, taker_amount),
            program_id@,
        ),
    )
}

/// What taking an order does to the accounts of a ledger that runs the
/// program at `program_id`.
pub open spec fn take_order_effect(
    m: Accounts,
    program_id: Address,
    accounts: TakeOrder,
    maker_amount: u64,
) -> Result<Accounts, OrderError> {
    match record_at(m, accounts.escrow) {
        Err(e) => Err(OrderError::Ledger(e)),
        Ok(record) => take_order_outcome(
            m,
            accounts,
            maker_amount,
            program_address(
                presented_seeds(record, accounts.escrow_token_account, accounts.maker),
                program_id@,
            ),
            program_address(record_seeds(record), program_id@),
        ),
    }
}

/// What cancelling an order does to the accounts of a ledger that runs the
/// program at `program_id`.
pub open spec fn cancel_order_effect(m: Accounts, program_id: Address, accounts: CancelOrder) -> Result<
    Accounts,
    OrderError,
> {
    match record_at(m, accounts.escrow) {
        Err(e) => Err(OrderError::Ledger(e)),
        Ok(record) => cancel_order_outcome(
            m,
            accounts,
            program_address(
                presented_seeds(record, accounts.escrow_token_account, accounts.maker),
                program_id@,
            ),
            program_address(record_seeds(record), program_id@),
        ),
    }
}

/// A sequence of steps ran as `expected` says: to these accounts, or to
/// this error.
spec fn ran(r: Result<(), OrderError>, after: Accounts, expected: Result<Accounts, OrderError>) -> bool {
    match expected {
        Ok(m) => r is Ok && after == m,
        Err(e) => r == Err::<(), OrderError>(e),
    }
}

fn teardown(
    ledger: &mut Ledger,
    escrow: &Address,
    custody: &Address,
    receiver: &Address,
    maker: &Address,
    shown: &Option<Address>,
) -> (r: Result<(), OrderError>)
    requires
        old(ledger).wf(),
    ensures
        final(ledger).wf(),
        final(ledger).program_id() == old(ledger).program_id(),
        final(ledger).record_stake() == old(ledger).record_stake(),
        ran(
            r,
            final(ledger)@,
            teardown_outcome(
                old(ledger)@,
                *escrow,
                *custody,
                *receiver,
                *maker,
                address_bytes(*shown),
            ),
        ),
{
    let held = match ledger.token_account(custody) {
        Ok(t) => t,
        Err(e) => { return Err(OrderError::Ledger(e)); },
    };
    if !is_address(shown, escrow) {
        return Err(OrderError::Ledger(LedgerError::UnauthorizedSigner));
    }
    match ledger.transfer(custody, receiver, escrow, held.amount) {
        Ok(()) => {},
        Err(e) => { return Err(OrderError::Ledger(e)); },
    }
    match ledger.close_account(custody, maker, escrow) {
        Ok(()) => {},
        Err(e) => { return Err(OrderError::Ledger(e)); },
    }
    ledger.release_record(escrow, maker)
}

fn make_order_steps(
    ledger: &mut Ledger,
    accounts: &MakeOrder,
    taker_amount: u64,
    found: &Option<(Address, u8)>,
) -> (r: Result<(), OrderError>)
    requires
        old(ledger).wf(),
    ensures
        final(ledger).wf(),
        final(ledger).program_id() == old(ledger).program_id(),
        final(ledger).record_stake() == old(ledger).record_stake(),
        ran(
            r,
            final(ledger)@,
            make_order_outcome(
                old(ledger)@,
                old(ledger).record_stake(),
                *accounts,
                taker_amount,
                found_bytes(*found),
            ),
        ),
{
    let custody = match ledger.token_account(&accounts.escrow_token_account) {
        Ok(t) => t,
        Err(e) => { return Err(OrderError::Ledger(e)); },
    };
    match ledger.token_account(&accounts.maker_receive_token_account) {
        Ok(_) => {},
        Err(e) => { return Err(OrderError::Ledger(e)); },
    }
    let (address, bump) = match found {
        Some((address, bump)) => (*address, *bump),
        None => { return Err(OrderError::Ledger(LedgerError::InvalidSeeds)); },
    };
    proof {
        if address@ == accounts.escrow@ {
            lemma_address_by_view(address, accounts.escrow);
        }
    }
    if address != accounts.escrow {
        return Err(OrderError::Ledger(LedgerError::SeedsMismatch));
    }
    let record = Escrow {
        bump,
        is_initialized: true,
        maker: accounts.maker,
        maker_amount: custody.amount,
        maker_receive_token_account: accounts.maker_receive_token_account,
        taker_amount,
        token_account: accounts.escrow_token_account,
    };
    match ledger.allocate_record(&accounts.escrow, &accounts.maker, record) {
        Ok(()) => {},
        Err(e) => { return Err(OrderError::Ledger(e)); },
    }
    match ledger.set_authority(&accounts.escrow_token_account, &accounts.maker, &accounts.escrow) {
        Ok(()) => Ok(()),
        Err(e) => Err(OrderError::Ledger(e)),
    }
}

fn take_order_steps(
    ledger: &mut Ledger,
    accounts: &TakeOrder,
    maker_amount: u64,
    presented: &Option<Address>,
    shown: &Option<Address>,
) -> (r: Result<(), OrderError>)
    requires
        old(ledger).wf(),
    ensures
        final(ledger).wf(),
        final(ledger).program_id() == old(ledger).program_id(),
        final(ledger).record_stake() == old(ledger).record_stake(),
        ran(
            r,
            final(ledger)@,
            take_order_outcome(
                old(ledger)@,
                *accounts,
                maker_amount,
                address_bytes(*presented),
                address_bytes(*shown),
            ),
        ),
{
    let record = match ledger.record(&accounts.escrow) {
        Ok(e) => e,
        Err(e) => { return Err(OrderError::Ledger(e)); },
    };
    match check_terms(&record, maker_amount, &accounts.maker_receive_token_account) {
        Ok(()) => {},
        Err(e) => { return Err(OrderError::Escrow(e)); },
    }
    if !is_address(presented, &accounts.escrow) {
        return Err(OrderError::Ledger(LedgerError::SeedsMismatch));
    }
    match ledger.transfer(
        &accounts.taker_send_token_account,
        &accounts.maker_receive_token_account,
        &accounts.taker,
        record.taker_amount,
    ) {
        Ok(()) => {},
        Err(e) => { return Err(OrderError::Ledger(e)); },
    }
    teardown(
        ledger,
        &accounts.escrow,
        &accounts.escrow_token_account,
        &accounts.taker_receive_token_account,
        &accounts.maker,
        shown,
    )
}

fn cancel_order_steps(
    ledger: &mut Ledger,
    accounts: &CancelOrder,
    presented: &Option<Address>,
    shown: &Option<Address>,
) -> (r: Result<(), OrderError>)
    requires
        old(ledger).wf(),
    ensures
        final(ledger).wf(),
        final(ledger).program_id() == old(ledger).program_id(),
        final(ledger).record_stake() == old(ledger).record_stake(),
        ran(
            r,
            final(ledger)@,
            cancel_order_outcome(
                old(ledger)@,
                *accounts,
                address_bytes(*presented),
                address_bytes(*shown),
            ),
        ),
{
    match ledger.record(&accounts.escrow) {
        Ok(_) => {},
        Err(e) => { return Err(OrderError::Ledger(e)); },
    }
    if !is_address(presented, &accounts.escrow) {
        return Err(OrderError::Ledger(LedgerError::SeedsMismatch));
    }
    teardown(
        ledger,
        &accounts.escrow,
        &accounts.escrow_token_account,
        &accounts.maker_send_token_account,
        &accounts.maker,
        shown,
    )
}

/// Makes an order, given the canonical address `found` that the custody
/// account, the maker and the price derive, with its bump seed.
///
/// Writes the record of the trade at that address and passes the funded
/// custody account from the maker to the record. On failure the ledger is
/// unchanged.
pub fn make_order_with(
    ledger: &mut Ledger,
    accounts: &MakeOrder,
    taker_amount: u64,
    found: Option<(Address, u8)>,
) -> (r: Result<(), OrderError>)
    requires
        old(ledger).wf(),
    ensures
        final(ledger).wf(),
        final(ledger).program_id() == old(ledger).program_id(),
        final(ledger).record_stake() == old(ledger).record_stake(),
        settled(
            r,
            old(ledger)@,
            final(ledger)@,
            make_order_outcome(
                old(ledger)@,
                old(ledger).record_stake(),
                *accounts,
                taker_amount,
                found_bytes(found),
            ),
        ),
        r is Ok ==> order_open(
            old(ledger)@,
            final(ledger)@,
            old(ledger).record_stake(),
            *accounts,
            taker_amount,
        ),
{
    let mut work = ledger.snapshot();
    let r = make_order_steps(&mut work, accounts, taker_amount, &found);
    if r.is_ok() {
        proof {
            law_make_order_locks_custody(
                ledger@,
                ledger.record_stake(),
                *accounts,
                taker_amount,
                found_bytes(found),
            );
        }
        *ledger = work;
    }
    r
}

/// Takes an order, given the address `presented` that the accounts
/// presented derive with the record's price and bump seed, and the address
/// `shown` that the record's own seeds derive.
///
/// The taker pays the price to the maker and receives the whole balance of
/// the custody account; the custody account and the record are closed and
/// their stakes go to the maker. `maker_amount` is the amount that the taker
/// expects the maker to have locked. On failure the ledger is unchanged.
pub fn take_order_with(
    ledger: &mut Ledger,
    accounts: &TakeOrder,
    maker_amount: u64,
    presented: Option<Address>,
    shown: Option<Address>,
) -> (r: Result<(), OrderError>)
    requires
        old(ledger).wf(),
    ensures
        final(ledger).wf(),
        final(ledger).program_id() == old(ledger).program_id(),
        final(ledger).record_stake() == old(ledger).record_stake(),
        settled(
            r,
            old(ledger)@,
            final(ledger)@,
            take_order_outcome(
                old(ledger)@,
                *accounts,
                maker_amount,
                address_bytes(presented),
                address_bytes(shown),
            ),
        ),
        record_at(old(ledger)@, accounts.escrow) matches Ok(record) && record.maker_amount
            != maker_amount ==> r == Err::<(), OrderError>(
            OrderError::Escrow(EscrowError::ExpectedAmountMismatch),
        ) && final(ledger)@ == old(ledger)@,
        record_at(old(ledger)@, accounts.escrow) matches Ok(record) && record.maker_amount
            == maker_amount && record.maker_receive_token_account
            != accounts.maker_receive_token_account ==> r == Err::<(), OrderError>(
            OrderError::Escrow(EscrowError::InvalidAccountData),
        ) && final(ledger)@ == old(ledger)@,
        r is Ok && custody_apart(*accounts) ==> trade_settled(
            old(ledger)@,
            final(ledger)@,
            *accounts,
        ),
{
    let mut work = ledger.snapshot();
    let r = take_order_steps(&mut work, accounts, maker_amount, &presented, &shown);
    if r.is_ok() {
        proof {
            if custody_apart(*accounts) {
                law_take_order_settles(
                    ledger@,
                    *accounts,
                    maker_amount,
                    address_bytes(presented),
                    address_bytes(shown),
                );
            }
        }
        *ledger = work;
    }
    r
}

/// Cancels an order, given the addresses `presented` and `shown` as for the
/// taking of an order.
///
/// The whole balance of the custody account goes back to the maker; the
/// custody account and the record are closed and their stakes go to the
/// maker. On failure the ledger is unchanged.
pub fn cancel_order_with(
    ledger: &mut Ledger,
    accounts: &CancelOrder,
    presented: Option<Address>,
    shown: Option<Address>,
) -> (r: Result<(), OrderError>)
    requires
        old(ledger).wf(),
    ensures
        final(ledger).wf(),
        final(ledger).program_id() == old(ledger).program_id(),
        final(ledger).record_stake() == old(ledger).record_stake(),
        settled(
            r,
            old(ledger)@,
            final(ledger)@,
            cancel_order_outcome(
                old(ledger)@,
                *accounts,
                address_bytes(presented),
                address_bytes(shown),
            ),
        ),
        r is Ok && accounts.maker_send_token_account != accounts.escrow_token_account
            ==> asset_returned(old(ledger)@, final(ledger)@, *accounts),
{
    let mut work = ledger.snapshot();
    let r = cancel_order_steps(&mut work, accounts, &presented, &shown);
    if r.is_ok() {
        proof {
            if accounts.maker_send_token_account != accounts.escrow_token_account {
                law_cancel_order_returns(
                    ledger@,
                    *accounts,
                    address_bytes(presented),
                    address_bytes(shown),
                );
            }
        }
        *ledger = work;
    }
    r
}

/// Makes an order: writes the record of the trade at its derived address
/// and passes the funded custody account from the maker to the record.
///
/// The maker offers the custody account's balance for `taker_amount` of the
/// counter-asset. On failure the ledger is unchanged.
pub fn make_order(ledger: &mut Ledger, accounts: &MakeOrder, taker_amount: u64) -> (r: Result<
    (),
    OrderError,
>)
    requires
        old(ledger).wf(),
    ensures
        final(ledger).wf(),
        final(ledger).program_id() == old(ledger).program_id(),
        final(ledger).record_stake() == old(ledger).record_stake(),
        settled(
            r,
            old(ledger)@,
            final(ledger)@,
            make_order_effect(
                old(ledger)@,
                old(ledger).program_id(),
                old(ledger).record_stake(),
                *accounts,
                taker_amount,
            ),
        ),
        r is Ok ==> order_open(
            old(ledger)@,
            final(ledger)@,
            old(ledger).record_stake(),
            *accounts,
            taker_amount,
        ),
        r is Ok ==> program_address(
            record_seeds(record_at(final(ledger)@, accounts.escrow)->Ok_0),
            old(ledger).program_id()@,
        ) == Some(accounts.escrow@),
{
    let seeds = order_seed_list(&accounts.escrow_token_account, &accounts.maker, taker_amount);
    let program_id = ledger.program_id();
    let found = find_address(&seeds, &program_id);
    proof {
        if make_order_effect(ledger@, program_id, ledger.record_stake(), *accounts, taker_amount)
            is Ok {
            law_made_record_derives_its_address(
                ledger@,
                program_id,
                ledger.record_stake(),
                *accounts,
                taker_amount,
            );
        }
    }
    make_order_with(ledger, accounts, taker_amount, found)
}

/// Takes an order: the taker pays the price to the maker and receives the
/// whole balance of the custody account; the custody account and the record
/// are closed and their stakes go to the maker.
///
/// `maker_amount` is the amount that the taker expects the maker to have
/// locked. On failure the ledger is unchanged.
pub fn take_order(ledger: &mut Ledger, accounts: &TakeOrder, maker_amount: u64) -> (r: Result<
    (),
    OrderError,
>)
    requires
        old(ledger).wf(),
    ensures
        final(ledger).wf(),
        final(ledger).program_id() == old(ledger).program_id(),
        final(ledger).record_stake() == old(ledger).record_stake(),
        settled(
            r,
            old(ledger)@,
            final(ledger)@,
            take_order_effect(old(ledger)@, old(ledger).program_id(), *accounts, maker_amount),
        ),
        record_at(old(ledger)@, accounts.escrow) matches Ok(record) && record.maker_amount
            != maker_amount ==> r == Err::<(), OrderError>(
            OrderError::Escrow(EscrowError::ExpectedAmountMismatch),
        ) && final(ledger)@ == old(ledger)@,
        record_at(old(ledger)@, accounts.escrow) matches Ok(record) && record.maker_amount
            == maker_amount && record.maker_receive_token_account
            != accounts.maker_receive_token_account ==> r == Err::<(), OrderError>(
            OrderError::Escrow(EscrowError::InvalidAccountData),
        ) && final(ledger)@ == old(ledger)@,
        r is Ok && custody_apart(*accounts) ==> trade_settled(
            old(ledger)@,
            final(ledger)@,
            *accounts,
        ),
{
    let record = match ledger.record(&accounts.escrow) {
        Ok(e) => e,
        Err(e) => { return Err(OrderError::Ledger(e)); },
    };
    let program_id = ledger.program_id();
    let presented = derive_address(
        &bumped_seed_list(
            &accounts.escrow_token_account,
            &accounts.maker,
            record.taker_amount,
            record.bump,
        ),
        &program_id,
    );
    let shown = derive_address(&record.seeds(), &program_id);
    take_order_with(ledger, accounts, maker_amount, presented, shown)
}

/// Cancels an order: the whole balance of the custody account goes back to
/// the maker; the custody account and the record are closed and their
/// stakes go to the maker.
///
/// On failure the ledger is unchanged.
pub fn cancel_order(ledger: &mut Ledger, accounts: &CancelOrder) -> (r: Result<(), OrderError>)
    requires
        old(ledger).wf(),
    ensures
        final(ledger).wf(),
        final(ledger).program_id() == old(ledger).program_id(),
        final(ledger).record_stake() == old(ledger).record_stake(),
        settled(
            r,
            old(ledger)@,
            final(ledger)@,
            cancel_order_effect(old(ledger)@, old(ledger).program_id(), *accounts),
        ),
        r is Ok && accounts.maker_send_token_account != accounts.escrow_token_account
            ==> asset_returned(old(ledger)@, final(ledger)@, *accounts),
{
    let record = match ledger.record(&accounts.escrow) {
        Ok(e) => e,
        Err(e) => { return Err(OrderError::Ledger(e)); },
    };
    let program_id = ledger.program_id();
    let presented = derive_address(
        &bumped_seed_list(
            &accounts.escrow_token_account,
            &accounts.maker,
            record.taker_amount,
            record.bump,
        ),
        &program_id,
    );
    let shown = derive_address(&record.seeds(), &program_id);
    cancel_order_with(ledger, accounts, presented, shown)
}

} // verus!
