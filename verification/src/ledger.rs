//! The ledger: accounts by address, the asset-custody service that moves
//! balances between asset accounts, and the allocation and release of
//! escrow records.
//!
//! Every operation either takes effect as a whole or fails and leaves the
//! ledger as it was.

use crate::address::Address;
use crate::errors::{EscrowError, LedgerError, OrderError};
use crate::state::Escrow;
use crate::store::{Account, AccountData, AccountStore, TokenAccount};
use vstd::prelude::*;

verus! {

/// The accounts of a ledger, by address.
pub type Accounts = Map<Address, Account>;

/// The asset account at `a`.
pub open spec fn token_at(m: Accounts, a: Address) -> Result<TokenAccount, LedgerError> {
    if !m.contains_key(a) {
        Err(LedgerError::AccountNotFound)
    } else {
        match m[a].data {
            AccountData::Token(t) => Ok(t),
            _ => Err(LedgerError::InvalidAccountKind),
        }
    }
}

/// The initialized escrow record at `a`.
pub open spec fn record_at(m: Accounts, a: Address) -> Result<Escrow, LedgerError> {
    if !m.contains_key(a) {
        Err(LedgerError::AccountNotFound)
    } else {
        match m[a].data {
            AccountData::Escrow(e) => if e.is_initialized {
                Ok(e)
            } else {
                Err(LedgerError::InvalidAccountKind)
            },
            _ => Err(LedgerError::InvalidAccountKind),
        }
    }
}

/// The asset account `account` with its balance set to `amount`.
pub open spec fn with_amount(account: Account, amount: int) -> Account {
    match account.data {
        AccountData::Token(t) => Account {
            lamports: account.lamports,
            data: AccountData::Token(TokenAccount { authority: t.authority, amount: amount as u64 }),
        },
        _ => account,
    }
}

/// The asset account `account` under the control of `authority`.
pub open spec fn with_authority(account: Account, authority: Address) -> Account {
    match account.data {
        AccountData::Token(t) => Account {
            lamports: account.lamports,
            data: AccountData::Token(TokenAccount { authority, amount: t.amount }),
        },
        _ => account,
    }
}

/// The account `account` with its native balance set to `lamports`.
pub open spec fn with_lamports(account: Account, lamports: int) -> Account {
    Account { lamports: lamports as u64, data: account.data }
}

/// What moving `amount` from the asset account `from` to the asset account
/// `to` under `authority` does to the accounts.
///
/// Both must be asset accounts, `from` must hold the amount and be
/// controlled by `authority`, and the balance of `to` must not overflow. A
/// transfer from an account to itself changes nothing.
pub open spec fn transfer_effect(
    m: Accounts,
    from: Address,
    to: Address,
    authority: Address,
    amount: u64,
) -> Result<Accounts, LedgerError> {
    match (token_at(m, from), token_at(m, to)) {
        (Err(e), _) => Err(e),
        (_, Err(e)) => Err(e),
        (Ok(source), Ok(target)) => if source.amount < amount {
            Err(LedgerError::InsufficientFunds)
        } else if source.authority != authority {
            Err(LedgerError::AuthorityMismatch)
        } else if from == to {
            Ok(m)
        } else if target.amount + amount > u64::MAX {
            Err(LedgerError::Overflow)
        } else {
            Ok(
                m.insert(from, with_amount(m[from], source.amount - amount)).insert(
                    to,
                    with_amount(m[to], target.amount + amount),
                ),
            )
        },
    }
}

/// What closing the asset account `account` into `destination` under
/// `authority` does to the accounts.
///
/// The account must be empty and controlled by `authority`. It ceases to
/// exist, and its native balance is added to that of `destination`.
pub open spec fn close_effect(
    m: Accounts,
    account: Address,
    destination: Address,
    authority: Address,
) -> Result<Accounts, LedgerError> {
    match token_at(m, account) {
        Err(e) => Err(e),
        Ok(t) => if account == destination {
            Err(LedgerError::SameAccount)
        } else if !m.contains_key(destination) {
            Err(LedgerError::AccountNotFound)
        } else if t.amount != 0 {
            Err(LedgerError::NonZeroBalance)
        } else if t.authority != authority {
            Err(LedgerError::AuthorityMismatch)
        } else if m[destination].lamports + m[account].lamports > u64::MAX {
            Err(LedgerError::Overflow)
        } else {
            Ok(
                m.insert(
                    destination,
                    with_lamports(m[destination], m[destination].lamports + m[account].lamports),
                ).remove(account),
            )
        },
    }
}

/// What handing the asset account `account` from `current` to
/// `new_authority` does to the accounts.
pub open spec fn set_authority_effect(
    m: Accounts,
    account: Address,
    current: Address,
    new_authority: Address,
) -> Result<Accounts, LedgerError> {
    match token_at(m, account) {
        Err(e) => Err(e),
        Ok(t) => if t.authority != current {
            Err(LedgerError::AuthorityMismatch)
        } else {
            Ok(m.insert(account, with_authority(m[account], new_authority)))
        },
    }
}

/// What allocating `record` at `address` does to the accounts: the address
/// must be free, and `payer` pays the stake that the record reserves.
pub open spec fn allocate_effect(
    m: Accounts,
    address: Address,
    payer: Address,
    stake: u64,
    record: Escrow,
) -> Result<Accounts, LedgerError> {
    if m.contains_key(address) {
        Err(LedgerError::AccountInUse)
    } else if !m.contains_key(payer) {
        Err(LedgerError::AccountNotFound)
    } else if m[payer].lamports < stake {
        Err(LedgerError::InsufficientFunds)
    } else {
        Ok(
            m.insert(payer, with_lamports(m[payer], m[payer].lamports - stake)).insert(
                address,
                Account { lamports: stake, data: AccountData::Escrow(record) },
            ),
        )
    }
}

/// The native balance of an account that had `balance` and reclaims
/// `stake`, where the sum can be held.
pub open spec fn reclaimed(balance: u64, stake: u64) -> Result<u64, EscrowError> {
    if balance + stake > u64::MAX {
        Err(EscrowError::AmountOverflow)
    } else {
        Ok((balance + stake) as u64)
    }
}

/// Adds a reclaimed stake to a native balance, and reports
/// `AmountOverflow` where the sum cannot be held.
pub fn reclaim_stake(balance: u64, stake: u64) -> (r: Result<u64, EscrowError>)
    ensures
        r == reclaimed(balance, stake),
{
    match balance.checked_add(stake) {
        Some(sum) => Ok(sum),
        None => Err(EscrowError::AmountOverflow),
    }
}

/// What releasing the record at `record` into `destination` does to the
/// accounts: the record ceases to exist and its stake is added to the native
/// balance of `destination`, which must not overflow.
pub open spec fn release_effect(m: Accounts, record: Address, destination: Address) -> Result<
    Accounts,
    OrderError,
> {
    match record_at(m, record) {
        Err(e) => Err(OrderError::Ledger(e)),
        Ok(_) => if record == destination {
            Err(OrderError::Ledger(LedgerError::SameAccount))
        } else if !m.contains_key(destination) {
            Err(OrderError::Ledger(LedgerError::AccountNotFound))
        } else {
            match reclaimed(m[destination].lamports, m[record].lamports) {
                Err(e) => Err(OrderError::Escrow(e)),
                Ok(sum) => Ok(
                    m.insert(destination, with_lamports(m[destination], sum as int)).remove(record),
                ),
            }
        },
    }
}

/// What creating `account` at `address` does to the accounts.
pub open spec fn create_effect(m: Accounts, address: Address, account: Account) -> Result<
    Accounts,
    LedgerError,
> {
    if m.contains_key(address) {
        Err(LedgerError::AccountInUse)
    } else {
        Ok(m.insert(address, account))
    }
}

/// An operation ended as `expected` says: with these accounts, or with this
/// error and the accounts as they were.
pub open spec fn settled<E>(
    r: Result<(), E>,
    before: Accounts,
    after: Accounts,
    expected: Result<Accounts, E>,
) -> bool {
    match expected {
        Ok(m) => r is Ok && after == m,
        Err(e) => r == Err::<(), E>(e) && after == before,
    }
}

/// A ledger of accounts, run for one escrow program.
pub struct Ledger {
    program_id: Address,
    record_stake: u64,
    accounts: AccountStore,
}

impl View for Ledger {
    type V = Accounts;

    closed spec fn view(&self) -> Accounts {
        self.accounts@
    }
}

impl Ledger {
    /// The ledger is well formed: every address holds at most one account.
    pub closed spec fn wf(&self) -> bool {
        self.accounts.wf()
    }

    /// The address of the escrow program, under which record addresses are
    /// derived.
    pub closed spec fn spec_program_id(&self) -> Address {
        self.program_id
    }

    /// The stake that a record reserves for its storage.
    pub closed spec fn spec_record_stake(&self) -> u64 {
        self.record_stake
    }

    /// A ledger without accounts.
    pub fn new(program_id: Address, record_stake: u64) -> (l: Ledger)
        ensures
            l.wf(),
            l@ == Map::<Address, Account>::empty(),
            l.spec_program_id() == program_id,
            l.spec_record_stake() == record_stake,
    {
        Ledger { program_id, record_stake, accounts: AccountStore::new() }
    }

    /// The address of the escrow program.
    #[verifier::when_used_as_spec(spec_program_id)]
    pub fn program_id(&self) -> (a: Address)
        ensures
            a == self.spec_program_id(),
    {
        self.program_id
    }

    /// The stake that a record reserves for its storage.
    #[verifier::when_used_as_spec(spec_record_stake)]
    pub fn record_stake(&self) -> (s: u64)
        ensures
            s == self.spec_record_stake(),
    {
        self.record_stake
    }

    /// A copy of the ledger.
    pub fn snapshot(&self) -> (l: Ledger)
        requires
            self.wf(),
        ensures
            l.wf(),
            l@ == self@,
            l.program_id() == self.program_id(),
            l.record_stake() == self.record_stake(),
    {
        Ledger {
            program_id: self.program_id,
            record_stake: self.record_stake,
            accounts: self.accounts.snapshot(),
        }
    }

    /// The account at `address`, if there is one.
    pub fn account(&self, address: &Address) -> (r: Option<Account>)
        requires
            self.wf(),
        ensures
            r == (if self@.contains_key(*address) {
                Some(self@[*address])
            } else {
                None
            }),
    {
        self.accounts.get(address)
    }

    /// The asset account at `address`.
    pub fn token_account(&self, address: &Address) -> (r: Result<TokenAccount, LedgerError>)
        requires
            self.wf(),
        ensures
            r == token_at(self@, *address),
    {
        match self.accounts.get(address) {
            None => Err(LedgerError::AccountNotFound),
            Some(account) => match account.data {
                AccountData::Token(t) => Ok(t),
                _ => Err(LedgerError::InvalidAccountKind),
            },
        }
    }

    /// The initialized escrow record at `address`.
    pub fn record(&self, address: &Address) -> (r: Result<Escrow, LedgerError>)
        requires
            self.wf(),
        ensures
            r == record_at(self@, *address),
    {
        match self.accounts.get(address) {
            None => Err(LedgerError::AccountNotFound),
            Some(account) => match account.data {
                AccountData::Escrow(e) => if e.is_initialized {
                    Ok(e)
                } else {
                    Err(LedgerError::InvalidAccountKind)
                },
                _ => Err(LedgerError::InvalidAccountKind),
            },
        }
    }

    /// Creates `account` at `address`, which must be free.
    pub fn create_account(&mut self, address: Address, account: Account) -> (r: Result<
        (),
        LedgerError,
    >)
        requires
            old(self).wf(),
        ensures
            final(self).wf(),
            final(self).program_id() == old(self).program_id(),
            final(self).record_stake() == old(self).record_stake(),
            settled(r, old(self)@, final(self)@, create_effect(old(self)@, address, account)),
    {
        if self.accounts.contains(&address) {
            return Err(LedgerError::AccountInUse);
        }
        self.accounts.insert(address, account);
        Ok(())
    }

    /// Moves `amount` from the asset account `from` to the asset account
    /// `to`, authorized by `authority`.
    pub fn transfer(&mut self, from: &Address, to: &Address, authority: &Address, amount: u64) -> (r:
        Result<(), LedgerError>)
        requires
            old(self).wf(),
        ensures
            final(self).wf(),
            final(self).program_id() == old(self).program_id(),
            final(self).record_stake() == old(self).record_stake(),
            settled(
                r,
                old(self)@,
                final(self)@,
                transfer_effect(old(self)@, *from, *to, *authority, amount),
            ),
    {
        let source = match self.token_account(from) {
            Ok(t) => t,
            Err(e) => { return Err(e); },
        };
        let target = match self.token_account(to) {
            Ok(t) => t,
            Err(e) => { return Err(e); },
        };
        if source.amount < amount {
            return Err(LedgerError::InsufficientFunds);
        }
        if source.authority != *authority {
            return Err(LedgerError::AuthorityMismatch);
        }
        if *from == *to {
            return Ok(());
        }
        if target.amount > u64::MAX - amount {
            return Err(LedgerError::Overflow);
        }
        let source_account = self.accounts.get(from).unwrap();
        let target_account = self.accounts.get(to).unwrap();
        self.accounts.insert(
            *from,
            Account {
                lamports: source_account.lamports,
                data: AccountData::Token(
                    TokenAccount { authority: source.authority, amount: source.amount - amount },
                ),
            },
        );
        self.accounts.insert(
            *to,
            Account {
                lamports: target_account.lamports,
                data: AccountData::Token(
                    TokenAccount { authority: target.authority, amount: target.amount + amount },
                ),
            },
        );
        Ok(())
    }

    /// Closes the empty asset account `account`, authorized by `authority`:
    /// the account ceases to exist and its reserved stake goes to
    /// `destination`.
    pub fn close_account(&mut self, account: &Address, destination: &Address, authority: &Address) -> (r:
        Result<(), LedgerError>)
        requires
            old(self).wf(),
        ensures
            final(self).wf(),
            final(self).program_id() == old(self).program_id(),
            final(self).record_stake() == old(self).record_stake(),
            settled(
                r,
                old(self)@,
                final(self)@,
                close_effect(old(self)@, *account, *destination, *authority),
            ),
    {
        let t = match self.token_account(account) {
            Ok(t) => t,
            Err(e) => { return Err(e); },
        };
        if *account == *destination {
            return Err(LedgerError::SameAccount);
        }
        let receiver = match self.accounts.get(destination) {
            Some(a) => a,
            None => { return Err(LedgerError::AccountNotFound); },
        };
        if t.amount != 0 {
            return Err(LedgerError::NonZeroBalance);
        }
        if t.authority != *authority {
            return Err(LedgerError::AuthorityMismatch);
        }
        let closed = self.accounts.get(account).unwrap();
        let lamports = match receiver.lamports.checked_add(closed.lamports) {
            Some(sum) => sum,
            None => { return Err(LedgerError::Overflow); },
        };
        self.accounts.insert(*destination, Account { lamports, data: receiver.data });
        self.accounts.remove(account);
        Ok(())
    }

    /// Hands the asset account `account` from `current` to `new_authority`.
    pub fn set_authority(&mut self, account: &Address, current: &Address, new_authority: &Address) -> (r:
        Result<(), LedgerError>)
        requires
            old(self).wf(),
        ensures
            final(self).wf(),
            final(self).program_id() == old(self).program_id(),
            final(self).record_stake() == old(self).record_stake(),
            settled(
                r,
                old(self)@,
                final(self)@,
                set_authority_effect(old(self)@, *account, *current, *new_authority),
            ),
    {
        let t = match self.token_account(account) {
            Ok(t) => t,
            Err(e) => { return Err(e); },
        };
        if t.authority != *current {
            return Err(LedgerError::AuthorityMismatch);
        }
        let held = self.accounts.get(account).unwrap();
        self.accounts.insert(
            *account,
            Account {
                lamports: held.lamports,
                data: AccountData::Token(TokenAccount { authority: *new_authority, amount: t.amount }),
            },
        );
        Ok(())
    }

    /// Allocates `record` at the free address `address`. `payer` pays the
    /// stake that the record reserves.
    pub fn allocate_record(&mut self, address: &Address, payer: &Address, record: Escrow) -> (r:
        Result<(), LedgerError>)
        requires
            old(self).wf(),
        ensures
            final(self).wf(),
            final(self).program_id() == old(self).program_id(),
            final(self).record_stake() == old(self).record_stake(),
            settled(
                r,
                old(self)@,
                final(self)@,
                allocate_effect(old(self)@, *address, *payer, old(self).record_stake(), record),
            ),
    {
        if self.accounts.contains(address) {
            return Err(LedgerError::AccountInUse);
        }
        let funding = match self.accounts.get(payer) {
            Some(a) => a,
            None => { return Err(LedgerError::AccountNotFound); },
        };
        if funding.lamports < self.record_stake {
            return Err(LedgerError::InsufficientFunds);
        }
        self.accounts.insert(
            *payer,
            Account { lamports: funding.lamports - self.record_stake, data: funding.data },
        );
        self.accounts.insert(
            *address,
            Account { lamports: self.record_stake, data: AccountData::Escrow(record) },
        );
        Ok(())
    }

    /// Releases the record at `record`: the record ceases to exist and its
    /// reserved stake goes to `destination`.
    pub fn release_record(&mut self, record: &Address, destination: &Address) -> (r: Result<
        (),
        OrderError,
    >)
        requires
            old(self).wf(),
        ensures
            final(self).wf(),
            final(self).program_id() == old(self).program_id(),
            final(self).record_stake() == old(self).record_stake(),
            settled(r, old(self)@, final(self)@, release_effect(old(self)@, *record, *destination)),
    {
        match self.record(record) {
            Ok(_) => {},
            Err(e) => { return Err(OrderError::Ledger(e)); },
        }
        if *record == *destination {
            return Err(OrderError::Ledger(LedgerError::SameAccount));
        }
        let receiver = match self.accounts.get(destination) {
            Some(a) => a,
            None => { return Err(OrderError::Ledger(LedgerError::AccountNotFound)); },
        };
        let released = self.accounts.get(record).unwrap();
        let lamports = match reclaim_stake(receiver.lamports, released.lamports) {
            Ok(sum) => sum,
            Err(e) => { return Err(OrderError::Escrow(e)); },
        };
        self.accounts.insert(*destination, Account { lamports, data: receiver.data });
        self.accounts.remove(record);
        Ok(())
    }
}

} // verus!
