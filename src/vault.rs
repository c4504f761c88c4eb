//! The vault: a custodied balance and the write-once ledger of every movement
//! into or out of it.
use vstd::prelude::*;
use crate::keys::IdentityKey;
use crate::error::GovernanceError;
use crate::allocator::{IdAllocator, IdDomain};

verus! {

/// Which way an amount moved.
#[derive(Clone, Copy, Debug, PartialEq, Eq, Structural)]
pub enum Direction {
    Inflow,
    Outflow,
}

/// One movement of the vault's balance: positive for an inflow, negative for
/// an outflow, with the fee the vault took on top of it.
#[derive(Clone, Copy, Debug, PartialEq, Eq)]
pub struct LedgerEntry {
    pub id: u64,
    pub counterparty: IdentityKey,
    pub amount: i128,
    pub fee: u64,
    pub direction: Direction,
}

/// The entry that records `amount` moving in the given direction.
pub open spec fn ledger_entry(
    id: u64,
    counterparty: IdentityKey,
    amount: u64,
    fee: u64,
    direction: Direction,
) -> LedgerEntry {
    LedgerEntry {
        id,
        counterparty,
        amount: match direction {
            Direction::Inflow => amount as int,
            Direction::Outflow => -(amount as int),
        } as i128,
        fee,
        direction,
    }
}

/// The amount's sign matches the direction, and its size fits a `u64`.
pub open spec fn amount_matches_direction(e: LedgerEntry) -> bool {
    match e.direction {
        Direction::Inflow => 0 <= e.amount <= u64::MAX,
        Direction::Outflow => -(u64::MAX as int) <= e.amount <= 0,
    }
}

/// The vault as a mathematical value.
pub struct VaultView {
    pub balance: u64,
    pub ledger: Seq<LedgerEntry>,
}

impl VaultView {
    /// Entry `i` carries id `i + 1`, and an amount whose sign matches its
    /// direction.
    pub open spec fn wf(self) -> bool {
        forall|i: int|
            0 <= i < self.ledger.len() ==> (#[trigger] self.ledger[i]).id == i + 1
                && amount_matches_direction(self.ledger[i])
    }

    /// The id the next ledger entry gets.
    pub open spec fn next_entry_id(self) -> u64 {
        (self.ledger.len() + 1) as u64
    }

    /// Why a deposit of `amount`, charged `fee` on top, by a caller holding
    /// `funds` is refused, if it is.
    pub open spec fn deposit_error(self, amount: u64, fee: u64, funds: u64) -> Option<
        GovernanceError,
    > {
        if funds < amount + fee {
            Some(GovernanceError::InsufficientFunds)
        } else if self.balance + amount + fee > u64::MAX {
            Some(GovernanceError::BalanceOverflow)
        } else if self.ledger.len() >= u64::MAX {
            Some(GovernanceError::IdSpaceExhausted)
        } else {
            None
        }
    }

    /// The vault after an accepted deposit: it receives the amount and the fee.
    pub open spec fn after_deposit(self, depositor: IdentityKey, amount: u64, fee: u64) -> VaultView {
        VaultView {
            balance: (self.balance + amount + fee) as u64,
            ledger: self.ledger.push(
                ledger_entry(self.next_entry_id(), depositor, amount, fee, Direction::Inflow),
            ),
        }
    }

    /// Why a payout of `amount` is refused, if it is.
    pub open spec fn payout_error(self, amount: u64) -> Option<GovernanceError> {
        if self.balance < amount {
            Some(GovernanceError::InsufficientBalance)
        } else if self.ledger.len() >= u64::MAX {
            Some(GovernanceError::IdSpaceExhausted)
        } else {
            None
        }
    }

    /// The vault after an accepted payout.
    pub open spec fn after_payout(self, recipient: IdentityKey, amount: u64) -> VaultView {
        VaultView {
            balance: (self.balance - amount) as u64,
            ledger: self.ledger.push(
                ledger_entry(self.next_entry_id(), recipient, amount, 0, Direction::Outflow),
            ),
        }
    }
}

/// The custodied balance with its ledger.
#[derive(Debug)]
pub struct Vault {
    balance: u64,
    ledger: Vec<LedgerEntry>,
    ledger_ids: IdAllocator,
}

impl View for Vault {
    type V = VaultView;

    closed spec fn view(&self) -> VaultView {
        VaultView { balance: self.balance, ledger: self.ledger@ }
    }
}

impl Vault {
    pub closed spec fn wf(&self) -> bool {
        &&& self@.wf()
        &&& self.ledger_ids.last_issued == self.ledger@.len()
    }

    /// An empty vault with the given opening balance.
    pub fn new(balance: u64) -> (v: Vault)
        ensures
            v@.balance == balance,
            v@.ledger == Seq::<LedgerEntry>::empty(),
            v.wf(),
    {
        Vault { balance, ledger: Vec::new(), ledger_ids: IdAllocator::new(IdDomain::LedgerEntries) }
    }

    /// A vault holding `balance` with the given ledger, if entry `i` of the
    /// ledger carries id `i + 1` and an amount whose sign matches its direction.
    pub fn restore(balance: u64, ledger: Vec<LedgerEntry>) -> (r: Option<Vault>)
        ensures
            r is Some <==> (VaultView { balance, ledger: ledger@ }).wf(),
            r matches Some(v) ==> v@ == (VaultView { balance, ledger: ledger@ }) && v.wf(),
    {
        let mut i: usize = 0;
        while i < ledger.len()
            invariant
                0 <= i <= ledger@.len(),
                forall|j: int|
                    0 <= j < i ==> (#[trigger] ledger@[j]).id == j + 1 && amount_matches_direction(
                        ledger@[j],
                    ),
            decreases ledger@.len() - i,
        {
            if ledger[i].id != i as u64 + 1 {
                return None;
            }
            let amount = ledger[i].amount;
            let signed_right = match ledger[i].direction {
                Direction::Inflow => 0 <= amount && amount <= u64::MAX as i128,
                Direction::Outflow => -(u64::MAX as i128) <= amount && amount <= 0,
            };
            if !signed_right {
                return None;
            }
            i = i + 1;
        }
        let count = ledger.len() as u64;
        Some(Vault {
            balance,
            ledger,
            ledger_ids: IdAllocator { domain: IdDomain::LedgerEntries, last_issued: count },
        })
    }

    pub fn balance(&self) -> (r: u64)
        ensures
            r == self@.balance,
    {
        self.balance
    }

    pub fn ledger(&self) -> (r: &Vec<LedgerEntry>)
        ensures
            r@ == self@.ledger,
    {
        &self.ledger
    }

    /// Appends the entry for `amount` moving in `direction`, under a fresh id.
    fn record(&mut self, counterparty: IdentityKey, amount: u64, fee: u64, direction: Direction) -> (r:
        Option<LedgerEntry>)
        requires
            old(self).wf(),
        ensures
            final(self).wf(),
            final(self)@.balance == old(self)@.balance,
            old(self)@.ledger.len() >= u64::MAX ==> r is None && final(self)@ == old(self)@,
            old(self)@.ledger.len() < u64::MAX ==> r == Some(
                ledger_entry(old(self)@.next_entry_id(), counterparty, amount, fee, direction),
            ) && final(self)@.ledger == old(self)@.ledger.push(r->0),
    {
        match self.ledger_ids.next_id() {
            None => None,
            Some(id) => {
                let signed: i128 = match direction {
                    Direction::Inflow => amount as i128,
                    Direction::Outflow => -(amount as i128),
                };
                let entry = LedgerEntry { id, counterparty, amount: signed, fee, direction };
                self.ledger.push(entry);
                Some(entry)
            },
        }
    }

    /// Takes `amount` in from `depositor`, who holds `funds`, and charges
    /// `fee` on top, which the vault keeps too. No proposal and no signature
    /// is involved.
    pub fn deposit(&mut self, depositor: IdentityKey, amount: u64, fee: u64, funds: u64) -> (r: Result<
        LedgerEntry,
        GovernanceError,
    >)
        requires
            old(self).wf(),
        ensures
            final(self).wf(),
            old(self)@.deposit_error(amount, fee, funds) matches Some(e) ==> r == Err::<
                LedgerEntry,
                GovernanceError,
            >(e) && final(self)@ == old(self)@,
            old(self)@.deposit_error(amount, fee, funds) is None ==> r == Ok::<
                LedgerEntry,
                GovernanceError,
            >(ledger_entry(old(self)@.next_entry_id(), depositor, amount, fee, Direction::Inflow))
                && final(self)@ == old(self)@.after_deposit(depositor, amount, fee),
    {
        if amount > u64::MAX - fee || funds < amount + fee {
            return Err(GovernanceError::InsufficientFunds);
        }
        let total = amount + fee;
        if self.balance > u64::MAX - total {
            return Err(GovernanceError::BalanceOverflow);
        }
        match self.record(depositor, amount, fee, Direction::Inflow) {
            None => Err(GovernanceError::IdSpaceExhausted),
            Some(entry) => {
                self.balance = self.balance + total;
                Ok(entry)
            },
        }
    }

    /// Pays `amount` out to `recipient`. Callers have already checked the
    /// consensus gate.
    pub fn pay_out(&mut self, recipient: IdentityKey, amount: u64) -> (r: Result<
        LedgerEntry,
        GovernanceError,
    >)
        requires
            old(self).wf(),
        ensures
            final(self).wf(),
            old(self)@.payout_error(amount) matches Some(e) ==> r == Err::<
                LedgerEntry,
                GovernanceError,
            >(e) && final(self)@ == old(self)@,
            old(self)@.payout_error(amount) is None ==> r == Ok::<LedgerEntry, GovernanceError>(
                ledger_entry(old(self)@.next_entry_id(), recipient, amount, 0, Direction::Outflow),
            ) && final(self)@ == old(self)@.after_payout(recipient, amount),
    {
        if self.balance < amount {
            return Err(GovernanceError::InsufficientBalance);
        }
        match self.record(recipient, amount, 0, Direction::Outflow) {
            None => Err(GovernanceError::IdSpaceExhausted),
            Some(entry) => {
                self.balance = self.balance - amount;
                Ok(entry)
            },
        }
    }
}

} // verus!
