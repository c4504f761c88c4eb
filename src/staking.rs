//! The staking gate: a staked token account may be frozen only while its
//! balance is above the configured minimum, and each staker's registry
//! remembers the reference of the current freeze.
use vstd::prelude::*;

verus! {

/// The minimum stake a fresh configuration asks for.
pub const DEFAULT_MIN_STAKING_AMOUNT: u64 = 10_000;

/// Why a freeze was refused.
#[derive(Clone, Copy, Debug, PartialEq, Eq, Structural)]
pub enum StakingErrorCode {
    /// The token balance is not above the minimum stake.
    InsufficientStakingBalance,
}

/// The staking settings.
#[derive(Clone, Copy, Debug, PartialEq, Eq, Structural)]
pub struct StakingConfig {
    pub min_staking_amount: u64,
}

impl Default for StakingConfig {
    fn default() -> (c: StakingConfig)
        ensures
            c.min_staking_amount == DEFAULT_MIN_STAKING_AMOUNT,
    {
        StakingConfig { min_staking_amount: DEFAULT_MIN_STAKING_AMOUNT }
    }
}

impl StakingConfig {
    /// Accepts a freeze of an account holding `balance` exactly when the
    /// balance is strictly above the minimum stake.
    pub fn check_stake(&self, balance: u64) -> (r: Result<(), StakingErrorCode>)
        ensures
            r is Ok <==> balance > self.min_staking_amount,
            r is Err ==> r == Err::<(), StakingErrorCode>(
                StakingErrorCode::InsufficientStakingBalance,
            ),
    {
        if balance > self.min_staking_amount {
            Ok(())
        } else {
            Err(StakingErrorCode::InsufficientStakingBalance)
        }
    }
}

/// A staker's record of the freeze in force: its reference, or the empty
/// string when the account is thawed.
#[derive(Clone, Debug, PartialEq, Eq)]
pub struct StakingRegistry {
    pub reference_id: String,
}

impl StakingRegistry {
    pub fn new() -> (r: StakingRegistry)
        ensures
            r.reference_id@ == Seq::<char>::empty(),
    {
        StakingRegistry { reference_id: String::new() }
    }

    /// Records the reference of a freeze that has taken place.
    pub fn record_freeze(&mut self, reference_number: String)
        ensures
            final(self).reference_id == reference_number,
    {
        self.reference_id = reference_number;
    }

    /// Clears the reference once the account is thawed.
    pub fn record_thaw(&mut self)
        ensures
            final(self).reference_id@ == Seq::<char>::empty(),
    {
        self.reference_id = String::new();
    }
}

} // verus!
