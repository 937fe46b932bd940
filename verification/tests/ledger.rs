use escrow::address::Address;
use escrow::errors::{EscrowError, LedgerError, OrderError};
use escrow::ledger::{reclaim_stake, Ledger};
use escrow::state::Escrow;
use escrow::store::{Account, AccountData, AccountStore, TokenAccount};

fn addr(n: u8) -> Address {
    Address::new([n; 32])
}

fn wallet(lamports: u64) -> Account {
    Account { lamports, data: AccountData::System }
}

fn token(authority: Address, amount: u64, lamports: u64) -> Account {
    Account { lamports, data: AccountData::Token(TokenAccount { authority, amount }) }
}

fn record(initialized: bool) -> Escrow {
    Escrow {
        bump: 255,
        is_initialized: initialized,
        maker: addr(1),
        maker_amount: 1000,
        maker_receive_token_account: addr(4),
        taker_amount: 500,
        token_account: addr(3),
    }
}

fn ledger() -> Ledger {
    let mut l = Ledger::new(addr(7), 1_000);
    l.create_account(addr(1), wallet(5_000)).unwrap();
    l.create_account(addr(2), token(addr(1), 300, 20)).unwrap();
    l.create_account(addr(3), token(addr(1), 50, 30)).unwrap();
    l
}

#[test]
fn store_keeps_one_account_per_address() {
    let mut s = AccountStore::new();
    assert_eq!(s.get(&addr(1)), None);
    assert!(!s.contains(&addr(1)));
    s.insert(addr(1), wallet(5));
    s.insert(addr(2), wallet(6));
    assert_eq!(s.get(&addr(1)), Some(wallet(5)));
    assert_eq!(s.get(&addr(2)), Some(wallet(6)));
    s.insert(addr(1), wallet(7));
    assert_eq!(s.get(&addr(1)), Some(wallet(7)));
    assert_eq!(s.get(&addr(2)), Some(wallet(6)));
    s.remove(&addr(1));
    assert_eq!(s.get(&addr(1)), None);
    assert!(s.contains(&addr(2)));
    s.remove(&addr(1));
    assert_eq!(s.get(&addr(2)), Some(wallet(6)));
}

#[test]
fn store_snapshot_is_independent() {
    let mut s = AccountStore::new();
    s.insert(addr(1), wallet(5));
    let copy = s.snapshot();
    s.insert(addr(1), wallet(9));
    s.insert(addr(2), wallet(1));
    assert_eq!(copy.get(&addr(1)), Some(wallet(5)));
    assert_eq!(copy.get(&addr(2)), None);
}

#[test]
fn new_ledger_is_empty() {
    let l = Ledger::new(addr(7), 1_000);
    assert_eq!(l.program_id(), addr(7));
    assert_eq!(l.record_stake(), 1_000);
    assert_eq!(l.account(&addr(1)), None);
    assert_eq!(l.token_account(&addr(1)), Err(LedgerError::AccountNotFound));
    assert_eq!(l.record(&addr(1)), Err(LedgerError::AccountNotFound));
}

#[test]
fn create_account_fails_on_an_occupied_address() {
    let mut l = ledger();
    assert_eq!(l.create_account(addr(1), wallet(1)), Err(LedgerError::AccountInUse));
    assert_eq!(l.account(&addr(1)), Some(wallet(5_000)));
}

#[test]
fn accounts_are_read_by_kind() {
    let mut l = ledger();
    assert_eq!(l.token_account(&addr(2)), Ok(TokenAccount { authority: addr(1), amount: 300 }));
    assert_eq!(l.token_account(&addr(1)), Err(LedgerError::InvalidAccountKind));
    assert_eq!(l.record(&addr(2)), Err(LedgerError::InvalidAccountKind));
    l.create_account(addr(9), Account { lamports: 1, data: AccountData::Escrow(record(true)) })
        .unwrap();
    l.create_account(addr(10), Account { lamports: 1, data: AccountData::Escrow(record(false)) })
        .unwrap();
    assert_eq!(l.record(&addr(9)), Ok(record(true)));
    assert_eq!(l.record(&addr(10)), Err(LedgerError::InvalidAccountKind));
    assert_eq!(l.token_account(&addr(9)), Err(LedgerError::InvalidAccountKind));
}

#[test]
fn transfer_moves_the_amount() {
    let mut l = ledger();
    assert_eq!(l.transfer(&addr(2), &addr(3), &addr(1), 100), Ok(()));
    assert_eq!(l.account(&addr(2)), Some(token(addr(1), 200, 20)));
    assert_eq!(l.account(&addr(3)), Some(token(addr(1), 150, 30)));
    assert_eq!(l.account(&addr(1)), Some(wallet(5_000)));
}

#[test]
fn transfer_of_everything_and_of_nothing() {
    let mut l = ledger();
    assert_eq!(l.transfer(&addr(2), &addr(3), &addr(1), 300), Ok(()));
    assert_eq!(l.token_account(&addr(2)).unwrap().amount, 0);
    assert_eq!(l.token_account(&addr(3)).unwrap().amount, 350);
    assert_eq!(l.transfer(&addr(2), &addr(3), &addr(1), 0), Ok(()));
    assert_eq!(l.token_account(&addr(3)).unwrap().amount, 350);
}

#[test]
fn transfer_failures_change_nothing() {
    let mut l = ledger();
    assert_eq!(l.transfer(&addr(2), &addr(3), &addr(1), 301), Err(LedgerError::InsufficientFunds));
    assert_eq!(l.transfer(&addr(2), &addr(3), &addr(9), 100), Err(LedgerError::AuthorityMismatch));
    assert_eq!(l.transfer(&addr(8), &addr(3), &addr(1), 100), Err(LedgerError::AccountNotFound));
    assert_eq!(l.transfer(&addr(2), &addr(8), &addr(1), 100), Err(LedgerError::AccountNotFound));
    assert_eq!(l.transfer(&addr(1), &addr(3), &addr(1), 100), Err(LedgerError::InvalidAccountKind));
    assert_eq!(l.transfer(&addr(2), &addr(1), &addr(1), 100), Err(LedgerError::InvalidAccountKind));
    assert_eq!(l.account(&addr(2)), Some(token(addr(1), 300, 20)));
    assert_eq!(l.account(&addr(3)), Some(token(addr(1), 50, 30)));
}

#[test]
fn transfer_reports_overflow_of_the_receiver() {
    let mut l = ledger();
    l.create_account(addr(4), token(addr(1), u64::MAX - 99, 0)).unwrap();
    assert_eq!(l.transfer(&addr(2), &addr(4), &addr(1), 100), Err(LedgerError::Overflow));
    assert_eq!(l.token_account(&addr(2)).unwrap().amount, 300);
    assert_eq!(l.transfer(&addr(2), &addr(4), &addr(1), 99), Ok(()));
    assert_eq!(l.token_account(&addr(4)).unwrap().amount, u64::MAX);
}

#[test]
fn transfer_to_the_same_account_changes_nothing() {
    let mut l = ledger();
    assert_eq!(l.transfer(&addr(2), &addr(2), &addr(1), 300), Ok(()));
    assert_eq!(l.account(&addr(2)), Some(token(addr(1), 300, 20)));
    assert_eq!(l.transfer(&addr(2), &addr(2), &addr(1), 301), Err(LedgerError::InsufficientFunds));
}

#[test]
fn set_authority_hands_the_account_over() {
    let mut l = ledger();
    assert_eq!(l.set_authority(&addr(2), &addr(1), &addr(9)), Ok(()));
    assert_eq!(l.account(&addr(2)), Some(token(addr(9), 300, 20)));
    assert_eq!(l.set_authority(&addr(2), &addr(1), &addr(9)), Err(LedgerError::AuthorityMismatch));
    assert_eq!(l.transfer(&addr(2), &addr(3), &addr(1), 1), Err(LedgerError::AuthorityMismatch));
    assert_eq!(l.transfer(&addr(2), &addr(3), &addr(9), 1), Ok(()));
    assert_eq!(l.set_authority(&addr(1), &addr(1), &addr(9)), Err(LedgerError::InvalidAccountKind));
    assert_eq!(l.set_authority(&addr(8), &addr(1), &addr(9)), Err(LedgerError::AccountNotFound));
}

#[test]
fn close_account_credits_the_stake() {
    let mut l = ledger();
    assert_eq!(l.transfer(&addr(3), &addr(2), &addr(1), 50), Ok(()));
    assert_eq!(l.close_account(&addr(3), &addr(1), &addr(1)), Ok(()));
    assert_eq!(l.account(&addr(3)), None);
    assert_eq!(l.account(&addr(1)), Some(wallet(5_030)));
    assert_eq!(l.account(&addr(2)), Some(token(addr(1), 350, 20)));
}

#[test]
fn close_account_failures_change_nothing() {
    let mut l = ledger();
    assert_eq!(l.close_account(&addr(3), &addr(1), &addr(1)), Err(LedgerError::NonZeroBalance));
    l.create_account(addr(4), token(addr(1), 0, 40)).unwrap();
    assert_eq!(l.close_account(&addr(4), &addr(4), &addr(1)), Err(LedgerError::SameAccount));
    assert_eq!(l.close_account(&addr(4), &addr(8), &addr(1)), Err(LedgerError::AccountNotFound));
    assert_eq!(l.close_account(&addr(4), &addr(1), &addr(9)), Err(LedgerError::AuthorityMismatch));
    assert_eq!(l.close_account(&addr(8), &addr(1), &addr(1)), Err(LedgerError::AccountNotFound));
    assert_eq!(l.close_account(&addr(1), &addr(2), &addr(1)), Err(LedgerError::InvalidAccountKind));
    l.create_account(addr(5), wallet(u64::MAX - 39)).unwrap();
    assert_eq!(l.close_account(&addr(4), &addr(5), &addr(1)), Err(LedgerError::Overflow));
    assert_eq!(l.account(&addr(4)), Some(token(addr(1), 0, 40)));
    assert_eq!(l.account(&addr(5)), Some(wallet(u64::MAX - 39)));
    assert_eq!(l.account(&addr(1)), Some(wallet(5_000)));
}

#[test]
fn close_account_into_an_asset_account() {
    let mut l = ledger();
    l.create_account(addr(4), token(addr(1), 0, 40)).unwrap();
    assert_eq!(l.close_account(&addr(4), &addr(2), &addr(1)), Ok(()));
    assert_eq!(l.account(&addr(2)), Some(token(addr(1), 300, 60)));
}

#[test]
fn allocate_record_charges_the_payer() {
    let mut l = ledger();
    assert_eq!(l.allocate_record(&addr(9), &addr(1), record(true)), Ok(()));
    assert_eq!(
        l.account(&addr(9)),
        Some(Account { lamports: 1_000, data: AccountData::Escrow(record(true)) })
    );
    assert_eq!(l.account(&addr(1)), Some(wallet(4_000)));
}

#[test]
fn allocate_record_failures_change_nothing() {
    let mut l = ledger();
    assert_eq!(l.allocate_record(&addr(2), &addr(1), record(true)), Err(LedgerError::AccountInUse));
    assert_eq!(
        l.allocate_record(&addr(9), &addr(8), record(true)),
        Err(LedgerError::AccountNotFound)
    );
    assert_eq!(
        l.allocate_record(&addr(9), &addr(2), record(true)),
        Err(LedgerError::InsufficientFunds)
    );
    assert_eq!(l.account(&addr(9)), None);
    assert_eq!(l.account(&addr(2)), Some(token(addr(1), 300, 20)));
}

#[test]
fn allocate_record_with_exactly_the_stake() {
    let mut l = Ledger::new(addr(7), 1_000);
    l.create_account(addr(1), wallet(1_000)).unwrap();
    assert_eq!(l.allocate_record(&addr(9), &addr(1), record(true)), Ok(()));
    assert_eq!(l.account(&addr(1)), Some(wallet(0)));
}

#[test]
fn release_record_returns_the_stake() {
    let mut l = ledger();
    assert_eq!(l.allocate_record(&addr(9), &addr(1), record(true)), Ok(()));
    assert_eq!(l.release_record(&addr(9), &addr(1)), Ok(()));
    assert_eq!(l.account(&addr(9)), None);
    assert_eq!(l.account(&addr(1)), Some(wallet(5_000)));
}

#[test]
fn release_record_failures_change_nothing() {
    let mut l = ledger();
    assert_eq!(
        l.release_record(&addr(9), &addr(1)),
        Err(OrderError::Ledger(LedgerError::AccountNotFound))
    );
    assert_eq!(
        l.release_record(&addr(2), &addr(1)),
        Err(OrderError::Ledger(LedgerError::InvalidAccountKind))
    );
    assert_eq!(l.allocate_record(&addr(9), &addr(1), record(true)), Ok(()));
    assert_eq!(
        l.release_record(&addr(9), &addr(9)),
        Err(OrderError::Ledger(LedgerError::SameAccount))
    );
    assert_eq!(
        l.release_record(&addr(9), &addr(8)),
        Err(OrderError::Ledger(LedgerError::AccountNotFound))
    );
    l.create_account(addr(5), wallet(u64::MAX - 999)).unwrap();
    assert_eq!(
        l.release_record(&addr(9), &addr(5)),
        Err(OrderError::Escrow(EscrowError::AmountOverflow))
    );
    assert_eq!(l.record(&addr(9)), Ok(record(true)));
    assert_eq!(l.account(&addr(5)), Some(wallet(u64::MAX - 999)));
}

#[test]
fn reclaim_stake_adds_or_reports_overflow() {
    assert_eq!(reclaim_stake(5, 7), Ok(12));
    assert_eq!(reclaim_stake(0, 0), Ok(0));
    assert_eq!(reclaim_stake(u64::MAX - 7, 7), Ok(u64::MAX));
    assert_eq!(reclaim_stake(u64::MAX - 6, 7), Err(EscrowError::AmountOverflow));
    assert_eq!(reclaim_stake(u64::MAX, u64::MAX), Err(EscrowError::AmountOverflow));
}

#[test]
fn ledger_snapshot_is_independent() {
    let mut l = ledger();
    let copy = l.snapshot();
    l.transfer(&addr(2), &addr(3), &addr(1), 100).unwrap();
    assert_eq!(copy.account(&addr(2)), Some(token(addr(1), 300, 20)));
    assert_eq!(copy.program_id(), addr(7));
    assert_eq!(copy.record_stake(), 1_000);
}
