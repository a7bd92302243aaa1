use vstd::prelude::*;
use crate::key::Key;

verus! {

/// Settings of a farm that staking consults.
#[derive(Clone, Copy, Debug, PartialEq, Eq, Structural)]
pub struct FarmConfig {
    /// How long, in seconds, freshly staked gems must stay in custody.
    pub min_staking_period_sec: u64,
}

/// The staking pool that all farmers of one farm share.
#[derive(Clone, Copy, Debug, PartialEq, Eq, Structural)]
pub struct Farm {
    /// The address under which the farm is known.
    pub key: Key,
    /// The identity that manages the bank and may toggle vault locks.
    pub farm_authority: Key,
    pub config: FarmConfig,
    /// Gems staked by all farmers together.
    pub gems_staked: u64,
    /// Rarity points staked by all farmers together.
    pub rarity_points_staked: u64,
    /// Reward emitted per second, shared among all staked rarity points.
    pub emission_rate: u64,
    /// Reward accumulated so far for each staked rarity point.
    pub reward_per_point: u64,
    /// The time up to which `reward_per_point` is accurate.
    pub last_update_ts: u64,
}

/// One participant's stake in a farm.
#[derive(Clone, Copy, Debug, PartialEq, Eq, Structural)]
pub struct Farmer {
    /// The farm the farmer is enrolled in.
    pub farm: Key,
    /// The owner who may act for this farmer.
    pub identity: Key,
    /// The vault that holds the farmer's gems.
    pub vault: Key,
    pub gems_staked: u64,
    pub rarity_points_staked: u64,
    /// Reward earned and not yet claimed.
    pub accrued_reward: u64,
    /// The farm's `reward_per_point` when the reward was last accrued.
    pub reward_per_point_snapshot: u64,
    /// The time of the last accrual.
    pub last_accrual_ts: u64,
    /// The time from which the minimum staking period is counted.
    pub stake_start_ts: u64,
}

/// What the farm knows of a vault kept by the bank.
#[derive(Clone, Copy, Debug, PartialEq, Eq, Structural)]
pub struct Vault {
    pub key: Key,
    pub gem_count: u64,
    pub rarity_points: u64,
    /// Locked vaults release no gems. A vault at rest is locked.
    pub locked: bool,
}

impl Farm {
    /// Whether `farmer`'s record is in step with the farm's: the farmer's stake
    /// is part of the farm's totals, and the farmer's last accrual lies neither
    /// ahead of the farm's reward per point nor ahead of its clock.
    pub open spec fn accounts_for(self, farmer: Farmer) -> bool {
        &&& farmer.gems_staked <= self.gems_staked
        &&& farmer.rarity_points_staked <= self.rarity_points_staked
        &&& farmer.reward_per_point_snapshot <= self.reward_per_point
        &&& farmer.last_accrual_ts <= self.last_update_ts
    }
}

} // verus!
