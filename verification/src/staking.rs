use vstd::prelude::*;
use crate::error::FarmError;
use crate::state::{Farm, Farmer};

verus! {

/// Whether `extra_gems` and `extra_rarity_points` can be added to the farmer's
/// stake and to the farm's totals without any of the four leaving `u64`.
pub open spec fn can_stake_extra(
    farm: Farm,
    farmer: Farmer,
    extra_gems: u64,
    extra_rarity_points: u64,
) -> bool {
    &&& farmer.gems_staked + extra_gems <= u64::MAX
    &&& farmer.rarity_points_staked + extra_rarity_points <= u64::MAX
    &&& farm.gems_staked + extra_gems <= u64::MAX
    &&& farm.rarity_points_staked + extra_rarity_points <= u64::MAX
}

impl Farmer {
    /// The farmer with the extra stake added. The staking clock restarts at
    /// `now` only where `reset_stake_clock` is set.
    pub open spec fn with_extra_stake(
        self,
        now: u64,
        extra_gems: u64,
        extra_rarity_points: u64,
        reset_stake_clock: bool,
    ) -> Farmer {
        Farmer {
            gems_staked: (self.gems_staked + extra_gems) as u64,
            rarity_points_staked: (self.rarity_points_staked + extra_rarity_points) as u64,
            stake_start_ts: if reset_stake_clock {
                now
            } else {
                self.stake_start_ts
            },
            ..self
        }
    }
}

impl Farm {
    /// The farm with the extra stake added to its totals.
    pub open spec fn with_extra_stake(self, extra_gems: u64, extra_rarity_points: u64) -> Farm {
        Farm {
            gems_staked: (self.gems_staked + extra_gems) as u64,
            rarity_points_staked: (self.rarity_points_staked + extra_rarity_points) as u64,
            ..self
        }
    }

    /// Adds gems to a farmer's stake and, by the same amounts, to the farm's
    /// totals.
    ///
    /// Fails with `Overflow`, changing nothing, where one of the four sums does
    /// not fit. Rewards must have been brought up to date before the call: the
    /// larger stake earns from the farmer's snapshot on.
    pub fn stake_extra_gems(
        &mut self,
        now_ts: u64,
        extra_gems: u64,
        extra_rarity_points: u64,
        farmer: &mut Farmer,
        reset_stake_clock: bool,
    ) -> (result: Result<(), FarmError>)
        ensures
            result is Ok <==> can_stake_extra(
                *old(self),
                *old(farmer),
                extra_gems,
                extra_rarity_points,
            ),
            result is Ok ==> *final(self) == old(self).with_extra_stake(
                extra_gems,
                extra_rarity_points,
            ),
            result is Ok ==> *final(farmer) == old(farmer).with_extra_stake(
                now_ts,
                extra_gems,
                extra_rarity_points,
                reset_stake_clock,
            ),
            result is Err ==> *final(self) == *old(self) && *final(farmer) == *old(farmer),
            result is Err ==> result == Err::<(), FarmError>(FarmError::Overflow),
            old(self).accounts_for(*old(farmer)) ==> final(self).accounts_for(*final(farmer)),
    {
        let farmer_gems = farmer.gems_staked.checked_add(extra_gems);
        let farmer_points = farmer.rarity_points_staked.checked_add(extra_rarity_points);
        let farm_gems = self.gems_staked.checked_add(extra_gems);
        let farm_points = self.rarity_points_staked.checked_add(extra_rarity_points);
        match (farmer_gems, farmer_points, farm_gems, farm_points) {
            (Some(fg), Some(fp), Some(tg), Some(tp)) => {
                farmer.gems_staked = fg;
                farmer.rarity_points_staked = fp;
                if reset_stake_clock {
                    farmer.stake_start_ts = now_ts;
                }
                self.gems_staked = tg;
                self.rarity_points_staked = tp;
                Ok(())
            },
            _ => Err(FarmError::Overflow),
        }
    }
}

/// The gems that the farmers of a farm have staked, taken together.
pub open spec fn total_gems_staked(farmers: Seq<Farmer>) -> int
    decreases farmers.len(),
{
    if farmers.len() == 0 {
        0
    } else {
        total_gems_staked(farmers.drop_last()) + farmers.last().gems_staked
    }
}

/// The rarity points that the farmers of a farm have staked, taken together.
pub open spec fn total_rarity_points_staked(farmers: Seq<Farmer>) -> int
    decreases farmers.len(),
{
    if farmers.len() == 0 {
        0
    } else {
        total_rarity_points_staked(farmers.drop_last()) + farmers.last().rarity_points_staked
    }
}

/// Whether the farm's totals are the sums over its farmers.
pub open spec fn totals_match(farm: Farm, farmers: Seq<Farmer>) -> bool {
    &&& farm.gems_staked == total_gems_staked(farmers)
    &&& farm.rarity_points_staked == total_rarity_points_staked(farmers)
}

/// Replacing one farmer's record changes each sum by the difference between the
/// new record's stake and the old one's.
pub proof fn lemma_totals_after_change(farmers: Seq<Farmer>, i: int, changed: Farmer)
    requires
        0 <= i < farmers.len(),
    ensures
        total_gems_staked(farmers.update(i, changed)) == total_gems_staked(farmers)
            - farmers[i].gems_staked + changed.gems_staked,
        total_rarity_points_staked(farmers.update(i, changed)) == total_rarity_points_staked(
            farmers,
        ) - farmers[i].rarity_points_staked + changed.rarity_points_staked,
    decreases farmers.len(),
{
    let after = farmers.update(i, changed);
    if i == farmers.len() - 1 {
        assert(after.drop_last() == farmers.drop_last());
    } else {
        assert(after.drop_last() == farmers.drop_last().update(i, changed));
        lemma_totals_after_change(farmers.drop_last(), i, changed);
    }
}

/// Staking extra gems keeps the farm's totals equal to the sums over its
/// farmers: what one farmer gains, the totals gain.
pub proof fn lemma_stake_extra_keeps_totals(
    farm: Farm,
    farmers: Seq<Farmer>,
    i: int,
    now: u64,
    extra_gems: u64,
    extra_rarity_points: u64,
    reset_stake_clock: bool,
)
    requires
        0 <= i < farmers.len(),
        totals_match(farm, farmers),
        can_stake_extra(farm, farmers[i], extra_gems, extra_rarity_points),
    ensures
        totals_match(
            farm.with_extra_stake(extra_gems, extra_rarity_points),
            farmers.update(
                i,
                farmers[i].with_extra_stake(
                    now,
                    extra_gems,
                    extra_rarity_points,
                    reset_stake_clock,
                ),
            ),
        ),
{
    lemma_totals_after_change(
        farmers,
        i,
        farmers[i].with_extra_stake(now, extra_gems, extra_rarity_points, reset_stake_clock),
    );
}

} // verus!
