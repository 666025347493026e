use vstd::prelude::*;

use crate::constants::SCALAR_7;

verus! {

/// The vault's fee configuration, persisted by the storage collaborator.
#[derive(Clone, Copy, Debug, PartialEq, Eq, Structural)]
pub struct Fee {
    /// The vault's fee mode:
    /// * 0 = take rate (the admin earns a percentage of the vault's earnings)
    /// * 1 = capped rate (the vault earns at most the rate, any excess goes to
    ///   the admin)
    /// * 2 = fixed rate (the vault always earns the rate, the admin either
    ///   supplements or earns the difference)
    pub rate_type: u32,
    /// The fee rate, 7-decimal fixed point (1000000 is 10%).
    pub rate: u32,
}

impl Fee {
    /// A stored fee rate never exceeds 100%. The rate type is not constrained
    /// here: fee accrual treats an unrecognized tag as "no fee" rather than
    /// locking funds, so the arithmetic must be well-defined for any tag.
    pub open spec fn wf(&self) -> bool {
        self.rate <= SCALAR_7
    }
}

/// The global reward stream for one reward token, persisted per token.
#[derive(Clone, Copy, Debug, PartialEq, Eq, Structural)]
pub struct RewardData {
    /// When the reward stream stops emitting.
    pub expiration: u64,
    /// Emission per second, 7-decimal fixed point.
    pub eps: u64,
    /// The last time the index was brought up to date.
    pub last_time: u64,
    /// Cumulative reward per share, 7-decimal fixed point. Non-decreasing
    /// while the stream is active.
    pub index: i128,
}

impl RewardData {
    /// The index starts at zero and only ever grows.
    pub open spec fn wf(&self) -> bool {
        self.index >= 0
    }
}

/// One user's standing against one reward token's stream.
#[derive(Clone, Copy, Debug, PartialEq, Eq, Structural)]
pub struct UserRewards {
    /// The global reward index this user last observed.
    pub index: i128,
    /// Rewards accrued to the user and not yet claimed.
    pub accrued: i128,
}

impl UserRewards {
    /// The observed index is a snapshot of the non-negative global index, and
    /// unclaimed rewards never go negative.
    pub open spec fn wf(&self) -> bool {
        self.index >= 0 && self.accrued >= 0
    }
}

} // verus!
