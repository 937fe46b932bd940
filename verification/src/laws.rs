//! What holds of every order operation, proved from what the operations do
//! to the accounts.

use crate::address::{lemma_canonical_address_derives, program_address, Address};
use crate::errors::{EscrowError, LedgerError, OrderError};
use crate::instructions::{CancelOrder, MakeOrder, TakeOrder};
use crate::ledger::{record_at, token_at, Accounts};
use crate::orders::{
    cancel_order_outcome, make_order_effect, make_order_outcome, take_order_outcome,
};
use crate::state::{order_seeds, record_seeds};
use vstd::prelude::*;

verus! {

/// The balance of the asset account at `a`; zero where there is none.
pub open spec fn balance(m: Accounts, a: Address) -> int {
    match token_at(m, a) {
        Ok(t) => t.amount as int,
        Err(_) => 0,
    }
}

/// The native balance of the account at `a`; zero where there is none.
pub open spec fn lamports(m: Accounts, a: Address) -> int {
    if m.contains_key(a) {
        m[a].lamports as int
    } else {
        0
    }
}

/// `amount` where `hit` holds, and zero elsewhere.
pub open spec fn share(hit: bool, amount: int) -> int {
    if hit {
        amount
    } else {
        0
    }
}

/// Every account but those at the listed addresses is in `after` what it
/// was in `before`.
pub open spec fn same_except(before: Accounts, after: Accounts, touched: Set<Address>) -> bool {
    forall|a: Address|
        !touched.contains(a) ==> before.contains_key(a) == after.contains_key(a) && (
        before.contains_key(a) ==> #[trigger] after[a] == before[a])
}

/// The order is open in `after`: the record stands at its address, which
/// was free in `before`, with the custody account's balance in `before` as
/// the maker's amount and with the terms that were given; the record holds
/// its stake; and the custody account, its balance untouched, is controlled
/// by the record and no longer by the maker.
pub open spec fn order_open(
    before: Accounts,
    after: Accounts,
    stake: u64,
    accounts: MakeOrder,
    taker_amount: u64,
) -> bool {
    &&& !before.contains_key(accounts.escrow)
    &&& record_at(after, accounts.escrow) matches Ok(record)
    &&& record.maker_amount == balance(before, accounts.escrow_token_account)
    &&& record.taker_amount == taker_amount
    &&& record.maker == accounts.maker
    &&& record.maker_receive_token_account == accounts.maker_receive_token_account
    &&& record.token_account == accounts.escrow_token_account
    &&& lamports(after, accounts.escrow) == stake
    &&& token_at(after, accounts.escrow_token_account) matches Ok(custody)
    &&& custody.amount == balance(before, accounts.escrow_token_account)
    &&& custody.authority == accounts.escrow
    &&& custody.authority != accounts.maker
}

/// Every record of `before` that still exists in `after` is what it was.
pub open spec fn records_unchanged(before: Accounts, after: Accounts) -> bool {
    forall|a: Address|
        before.contains_key(a) && before[a].data is Escrow && after.contains_key(a)
            ==> #[trigger] after[a].data == before[a].data
}

/// No order operation changes a record.
///
/// After every successful making, taking or cancelling of an order, each
/// record that existed before and still exists holds what it held: a record
/// is written once and then only destroyed.
pub proof fn law_records_never_change(
    m: Accounts,
    stake: u64,
    made: MakeOrder,
    taker_amount: u64,
    found: Option<(Seq<u8>, u8)>,
    taken: TakeOrder,
    maker_amount: u64,
    cancelled: CancelOrder,
    presented: Option<Seq<u8>>,
    shown: Option<Seq<u8>>,
)
    ensures
        make_order_outcome(m, stake, made, taker_amount, found) matches Ok(after)
            ==> records_unchanged(m, after),
        take_order_outcome(m, taken, maker_amount, presented, shown) matches Ok(after)
            ==> records_unchanged(m, after),
        cancel_order_outcome(m, cancelled, presented, shown) matches Ok(after)
            ==> records_unchanged(m, after),
{
}

/// A made order locks the custody account.
///
/// After every successful making of an order, whatever address was derived:
/// the record stands at its address with the custody account's balance at
/// the time of the call as the maker's amount and with the terms that were
/// given; and the custody account, its balance untouched, is controlled by
/// the record and no longer by the maker.
pub proof fn law_make_order_locks_custody(
    m: Accounts,
    stake: u64,
    accounts: MakeOrder,
    taker_amount: u64,
    found: Option<(Seq<u8>, u8)>,
)
    requires
        make_order_outcome(m, stake, accounts, taker_amount, found) is Ok,
    ensures
        order_open(
            m,
            make_order_outcome(m, stake, accounts, taker_amount, found)->Ok_0,
            stake,
            accounts,
            taker_amount,
        ),
{
}

/// A made record proves its own address.
///
/// After every successful making of an order on a ledger that runs the
/// program at `program_id`, the seeds that the record holds derive the
/// record's address: the record can act for itself when the order is taken
/// or cancelled.
pub proof fn law_made_record_derives_its_address(
    m: Accounts,
    program_id: Address,
    stake: u64,
    accounts: MakeOrder,
    taker_amount: u64,
)
    requires
        make_order_effect(m, program_id, stake, accounts, taker_amount) is Ok,
    ensures
        program_address(
            record_seeds(
                record_at(
                    make_order_effect(m, program_id, stake, accounts, taker_amount)->Ok_0,
                    accounts.escrow,
                )->Ok_0,
            ),
            program_id@,
        ) == Some(accounts.escrow@),
{
    lemma_canonical_address_derives(
        order_seeds(accounts.escrow_token_account, accounts.maker, taker_amount),
        program_id@,
    );
}

/// A wrong confirmation is refused.
///
/// Where the record exists and the amount that the taker confirms is not
/// the maker's amount that the record holds, taking the order fails with
/// `ExpectedAmountMismatch`, whatever else is presented.
pub proof fn law_take_order_checks_amount(
    m: Accounts,
    accounts: TakeOrder,
    maker_amount: u64,
    presented: Option<Seq<u8>>,
    shown: Option<Seq<u8>>,
)
    requires
        record_at(m, accounts.escrow) matches Ok(record) && record.maker_amount != maker_amount,
    ensures
        take_order_outcome(m, accounts, maker_amount, presented, shown) == Err::<
            Accounts,
            OrderError,
        >(
            OrderError::Escrow(EscrowError::ExpectedAmountMismatch),
        ),
{
}

/// A wrong receiving account is refused.
///
/// Where the record exists, the confirmed amount is right and the receiving
/// account presented for the maker is not the one that the record names,
/// taking the order fails with `InvalidAccountData`.
pub proof fn law_take_order_checks_receiver(
    m: Accounts,
    accounts: TakeOrder,
    maker_amount: u64,
    presented: Option<Seq<u8>>,
    shown: Option<Seq<u8>>,
)
    requires
        record_at(m, accounts.escrow) matches Ok(record) && record.maker_amount == maker_amount
            && record.maker_receive_token_account != accounts.maker_receive_token_account,
    ensures
        take_order_outcome(m, accounts, maker_amount, presented, shown) == Err::<
            Accounts,
            OrderError,
        >(
            OrderError::Escrow(EscrowError::InvalidAccountData),
        ),
{
}

/// The custody account is none of the three other asset accounts of the
/// taking.
pub open spec fn custody_apart(accounts: TakeOrder) -> bool {
    &&& accounts.escrow_token_account != accounts.taker_send_token_account
    &&& accounts.escrow_token_account != accounts.maker_receive_token_account
    &&& accounts.escrow_token_account != accounts.taker_receive_token_account
}

/// The trade is settled in `after`: against `before`, the taker's sending
/// account holds the price less, the maker's receiving account holds the
/// price more, and the taker's receiving account holds the custody
/// account's balance more (where two of these are one account, it holds the
/// sum of what each of them gains and loses); the custody account and the
/// record no longer exist; their stakes have gone to the maker; and no other
/// account has changed.
pub open spec fn trade_settled(before: Accounts, after: Accounts, accounts: TakeOrder) -> bool {
    let price = record_at(before, accounts.escrow)->Ok_0.taker_amount as int;
    let locked = balance(before, accounts.escrow_token_account);
    let send = accounts.taker_send_token_account;
    let paid = accounts.maker_receive_token_account;
    let got = accounts.taker_receive_token_account;
    &&& token_at(after, send) is Ok
    &&& token_at(after, paid) is Ok
    &&& token_at(after, got) is Ok
    &&& balance(after, send) == balance(before, send) - price + share(send == paid, price) + share(
        send == got,
        locked,
    )
    &&& balance(after, paid) == balance(before, paid) + price - share(paid == send, price) + share(
        paid == got,
        locked,
    )
    &&& balance(after, got) == balance(before, got) + locked - share(got == send, price) + share(
        got == paid,
        price,
    )
    &&& !after.contains_key(accounts.escrow_token_account)
    &&& !after.contains_key(accounts.escrow)
    &&& lamports(after, accounts.maker) == lamports(before, accounts.maker) + lamports(
        before,
        accounts.escrow_token_account,
    ) + lamports(before, accounts.escrow)
    &&& same_except(
        before,
        after,
        set![send, paid, got, accounts.escrow_token_account, accounts.escrow, accounts.maker],
    )
}

/// A taken order is settled in full.
///
/// After every successful taking of an order whose custody account is none
/// of the three other asset accounts: the taker's sending account holds the
/// price less, the maker's receiving account holds the price more, and the
/// taker's receiving account holds the custody account's balance more (where
/// two of these are one account, it holds the sum of what each of them
/// gains and loses); the custody account and the record no longer exist;
/// their stakes have gone to the maker; and no other account has changed.
pub proof fn law_take_order_settles(
    m: Accounts,
    accounts: TakeOrder,
    maker_amount: u64,
    presented: Option<Seq<u8>>,
    shown: Option<Seq<u8>>,
)
    requires
        take_order_outcome(m, accounts, maker_amount, presented, shown) is Ok,
        custody_apart(accounts),
    ensures
        trade_settled(
            m,
            take_order_outcome(m, accounts, maker_amount, presented, shown)->Ok_0,
            accounts,
        ),
{
}

/// A taken order cannot be taken again.
///
/// After a successful taking of an order, taking it again with the same
/// accounts fails, because the record no longer exists.
pub proof fn law_take_order_once(
    m: Accounts,
    accounts: TakeOrder,
    maker_amount: u64,
    presented: Option<Seq<u8>>,
    shown: Option<Seq<u8>>,
    again: u64,
)
    requires
        take_order_outcome(m, accounts, maker_amount, presented, shown) is Ok,
    ensures
        take_order_outcome(
            take_order_outcome(m, accounts, maker_amount, presented, shown)->Ok_0,
            accounts,
            again,
            presented,
            shown,
        ) == Err::<Accounts, OrderError>(OrderError::Ledger(LedgerError::AccountNotFound)),
{
}

/// The asset is back in `after`: against `before`, the destination holds
/// the custody account's balance more; the custody account and the record
/// no longer exist; their stakes have gone to the maker; and no other
/// account has changed.
pub open spec fn asset_returned(before: Accounts, after: Accounts, accounts: CancelOrder) -> bool {
    let back = accounts.maker_send_token_account;
    &&& token_at(after, back) is Ok
    &&& balance(after, back) == balance(before, back) + balance(
        before,
        accounts.escrow_token_account,
    )
    &&& !after.contains_key(accounts.escrow_token_account)
    &&& !after.contains_key(accounts.escrow)
    &&& lamports(after, accounts.maker) == lamports(before, accounts.maker) + lamports(
        before,
        accounts.escrow_token_account,
    ) + lamports(before, accounts.escrow)
    &&& same_except(
        before,
        after,
        set![back, accounts.escrow_token_account, accounts.escrow, accounts.maker],
    )
}

/// A cancelled order gives the asset back.
///
/// After every successful cancellation whose destination is not the custody
/// account itself: the destination holds the custody account's balance
/// more; the custody account and the record no longer exist; their stakes
/// have gone to the maker; and no other account has changed.
pub proof fn law_cancel_order_returns(
    m: Accounts,
    accounts: CancelOrder,
    presented: Option<Seq<u8>>,
    shown: Option<Seq<u8>>,
)
    requires
        cancel_order_outcome(m, accounts, presented, shown) is Ok,
        accounts.maker_send_token_account != accounts.escrow_token_account,
    ensures
        asset_returned(m, cancel_order_outcome(m, accounts, presented, shown)->Ok_0, accounts),
{
}

/// Making an order and cancelling it gives the maker everything back.
///
/// Where an order is made and then cancelled by the same maker for the same
/// custody account, into a destination other than the custody account: the
/// destination holds what it held before the order plus what the custody
/// account held, so the maker's holdings of the asset are what they were;
/// the stake paid for the record has come back, together with the stake of
/// the custody account; the custody account and the record no longer exist;
/// and no other account has changed.
pub proof fn law_make_then_cancel_restores(
    m: Accounts,
    stake: u64,
    made: MakeOrder,
    taker_amount: u64,
    found: Option<(Seq<u8>, u8)>,
    cancelled: CancelOrder,
    presented: Option<Seq<u8>>,
    shown: Option<Seq<u8>>,
)
    requires
        make_order_outcome(m, stake, made, taker_amount, found) is Ok,
        cancel_order_outcome(
            make_order_outcome(m, stake, made, taker_amount, found)->Ok_0,
            cancelled,
            presented,
            shown,
        ) is Ok,
        cancelled.maker == made.maker,
        cancelled.escrow == made.escrow,
        cancelled.escrow_token_account == made.escrow_token_account,
        cancelled.maker_send_token_account != made.escrow_token_account,
    ensures
        ({
            let open = make_order_outcome(m, stake, made, taker_amount, found)->Ok_0;
            let after = cancel_order_outcome(open, cancelled, presented, shown)->Ok_0;
            let back = cancelled.maker_send_token_account;
            &&& token_at(after, back) is Ok
            &&& balance(after, back) == balance(m, back) + balance(m, made.escrow_token_account)
            &&& lamports(after, made.maker) == lamports(m, made.maker) + lamports(
                m,
                made.escrow_token_account,
            )
            &&& !after.contains_key(made.escrow_token_account)
            &&& !after.contains_key(made.escrow)
            &&& same_except(
                m,
                after,
                set![back, made.escrow_token_account, made.escrow, made.maker],
            )
        }),
{
    law_make_order_locks_custody(m, stake, made, taker_amount, found);
    let open = make_order_outcome(m, stake, made, taker_amount, found)->Ok_0;
    law_cancel_order_returns(open, cancelled, presented, shown);
}

} // verus!
