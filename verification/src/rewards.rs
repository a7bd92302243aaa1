use vstd::prelude::*;
use crate::error::FarmError;
use crate::state::{Farm, Farmer};

verus! {

/// The reward that falls to each of `points` staked rarity points while
/// `emission_rate` is emitted per second for `elapsed` seconds, rounded down.
/// While no rarity points are staked, nothing falls to any.
pub open spec fn emitted_per_point(emission_rate: int, points: int, elapsed: int) -> int {
    if points == 0 {
        0
    } else {
        (elapsed * emission_rate) / points
    }
}

impl Farm {
    /// The reward that each staked rarity point has accumulated by `now`.
    pub open spec fn reward_per_point_at(self, now: int) -> int {
        self.reward_per_point + emitted_per_point(
            self.emission_rate as int,
            self.rarity_points_staked as int,
            now - self.last_update_ts,
        )
    }

    /// Whether the farm's accrual state can be brought forward to `now`.
    pub open spec fn can_advance_to(self, now: u64) -> bool {
        &&& self.last_update_ts <= now
        &&& self.reward_per_point_at(now as int) <= u64::MAX
    }

    /// The farm with its accrual state brought forward to `now`.
    pub open spec fn advanced_to(self, now: u64) -> Farm {
        Farm {
            reward_per_point: self.reward_per_point_at(now as int) as u64,
            last_update_ts: now,
            ..self
        }
    }
}

impl Farmer {
    /// The reward the farmer has earned once the farm's reward per point stands at
    /// `reward_per_point`: what was accrued before, and the growth since the
    /// snapshot for each rarity point the farmer has staked.
    pub open spec fn reward_at(self, reward_per_point: int) -> int {
        self.accrued_reward + (reward_per_point - self.reward_per_point_snapshot)
            * self.rarity_points_staked
    }

    /// Whether the farmer's reward can be accrued against `reward_per_point`.
    pub open spec fn can_accrue(self, reward_per_point: u64) -> bool {
        &&& self.reward_per_point_snapshot <= reward_per_point
        &&& self.reward_at(reward_per_point as int) <= u64::MAX
    }

    /// The farmer after accruing against `reward_per_point` at time `now`.
    pub open spec fn accrued(self, reward_per_point: u64, now: u64) -> Farmer {
        Farmer {
            accrued_reward: self.reward_at(reward_per_point as int) as u64,
            reward_per_point_snapshot: reward_per_point,
            last_accrual_ts: now,
            ..self
        }
    }
}

/// Whether `update_rewards` succeeds on this farm, time and farmer.
pub open spec fn can_update_rewards(farm: Farm, now: u64, farmer: Option<Farmer>) -> bool {
    &&& farm.can_advance_to(now)
    &&& farmer matches Some(f) ==> f.can_accrue(farm.advanced_to(now).reward_per_point)
}

proof fn lemma_product_fits(a: u64, b: u64)
    ensures
        0 <= a * b <= 0xFFFF_FFFF_FFFF_FFFE_0000_0000_0000_0001,
{
    assert(0 <= a * b <= 0xFFFF_FFFF_FFFF_FFFF * 0xFFFF_FFFF_FFFF_FFFF) by (nonlinear_arith)
        requires
            0 <= a <= 0xFFFF_FFFF_FFFF_FFFF,
            0 <= b <= 0xFFFF_FFFF_FFFF_FFFF,
    ;
}

proof fn lemma_quotient_bounded(n: int, d: int)
    requires
        0 <= n,
        0 < d,
    ensures
        0 <= n / d <= n,
{
    assert(0 <= n / d <= n) by (nonlinear_arith)
        requires
            0 <= n,
            0 < d,
    ;
}

impl Farm {
    /// The farm's reward per point at `now_ts`, or `None` where the clock has
    /// gone backwards or the value no longer fits.
    fn reward_per_point_now(&self, now_ts: u64) -> (value: Option<u64>)
        ensures
            value is Some <==> self.can_advance_to(now_ts),
            value matches Some(v) ==> v == self.reward_per_point_at(now_ts as int),
    {
        if now_ts < self.last_update_ts {
            return None;
        }
        if self.rarity_points_staked == 0 {
            return Some(self.reward_per_point);
        }
        let elapsed: u64 = now_ts - self.last_update_ts;
        proof {
            lemma_product_fits(elapsed, self.emission_rate);
            lemma_quotient_bounded(
                elapsed * self.emission_rate,
                self.rarity_points_staked as int,
            );
        }
        let emitted: u128 = (elapsed as u128) * (self.emission_rate as u128);
        let per_point: u128 = emitted / (self.rarity_points_staked as u128);
        let grown: u128 = self.reward_per_point as u128 + per_point;
        if grown > u64::MAX as u128 {
            None
        } else {
            Some(grown as u64)
        }
    }

    /// Brings the farm's accrual state forward to `now_ts` and, where a farmer is
    /// given, credits the farmer with the reward earned since the last accrual.
    ///
    /// The farmer is credited for the rarity points staked at the time of the
    /// call, so a change of stake must come after it. While no rarity points are
    /// staked in the farm the reward per point stays as it is and only the time
    /// moves on. Fails with `Overflow`, changing nothing, where the clock stands
    /// behind the farm's, the farmer's snapshot stands ahead of the farm's reward
    /// per point, or a new value does not fit.
    pub fn update_rewards(&mut self, now_ts: u64, farmer: Option<&mut Farmer>) -> (result: Result<
        (),
        FarmError,
    >)
        ensures
            match farmer {
                Some(f) => {
                    &&& result is Ok <==> can_update_rewards(*old(self), now_ts, Some(*f))
                    &&& result is Ok ==> *final(f) == f.accrued(
                        old(self).advanced_to(now_ts).reward_per_point,
                        now_ts,
                    )
                    &&& result is Err ==> *final(f) == *f
                    &&& old(self).accounts_for(*f) ==> final(self).accounts_for(*final(f))
                },
                None => result is Ok <==> can_update_rewards(*old(self), now_ts, None),
            },
            result is Ok ==> *final(self) == old(self).advanced_to(now_ts),
            result is Err ==> *final(self) == *old(self),
            result is Err ==> result == Err::<(), FarmError>(FarmError::Overflow),
    {
        let reward_per_point = match self.reward_per_point_now(now_ts) {
            Some(v) => v,
            None => {
                return Err(FarmError::Overflow);
            },
        };
        match farmer {
            Some(f) => {
                if f.reward_per_point_snapshot > reward_per_point {
                    return Err(FarmError::Overflow);
                }
                let growth: u64 = reward_per_point - f.reward_per_point_snapshot;
                proof {
                    lemma_product_fits(growth, f.rarity_points_staked);
                }
                let earned: u128 = (growth as u128) * (f.rarity_points_staked as u128);
                let total: u128 = f.accrued_reward as u128 + earned;
                if total > u64::MAX as u128 {
                    return Err(FarmError::Overflow);
                }
                f.accrued_reward = total as u64;
                f.reward_per_point_snapshot = reward_per_point;
                f.last_accrual_ts = now_ts;
            },
            None => {},
        }
        self.reward_per_point = reward_per_point;
        self.last_update_ts = now_ts;
        Ok(())
    }
}

/// No time, no reward: over an interval of length zero nothing is emitted.
pub proof fn lemma_nothing_emitted_at_once(emission_rate: int, points: int)
    requires
        0 <= points,
    ensures
        emitted_per_point(emission_rate, points, 0) == 0,
{
    if points != 0 {
        assert((0 * emission_rate) / points == 0) by (nonlinear_arith)
            requires
                0 < points,
        ;
    }
}

/// Bringing a farm forward to `now` changes nothing that a farmer could have
/// earned by `now`: the reward per point at `now` is the same before and after.
pub proof fn lemma_advance_keeps_rewards(farm: Farm, now: u64)
    requires
        farm.can_advance_to(now),
    ensures
        farm.advanced_to(now).reward_per_point_at(now as int) == farm.reward_per_point_at(
            now as int,
        ),
        farm.advanced_to(now).reward_per_point == farm.reward_per_point_at(now as int),
{
    lemma_nothing_emitted_at_once(farm.emission_rate as int, farm.rarity_points_staked as int);
}

/// What the staked rarity points receive together is never more than what was
/// emitted, and falls short of it by less than one unit for each point.
pub proof fn lemma_emission_is_shared_out(emission_rate: int, points: int, elapsed: int)
    requires
        0 <= emission_rate,
        0 < points,
        0 <= elapsed,
    ensures
        emitted_per_point(emission_rate, points, elapsed) * points <= elapsed * emission_rate,
        elapsed * emission_rate < emitted_per_point(emission_rate, points, elapsed) * points
            + points,
{
    let emitted = elapsed * emission_rate;
    assert(0 <= emitted) by (nonlinear_arith)
        requires
            0 <= emission_rate,
            0 <= elapsed,
            emitted == elapsed * emission_rate,
    ;
    assert((emitted / points) * points <= emitted < (emitted / points) * points + points)
        by (nonlinear_arith)
        requires
            0 <= emitted,
            0 < points,
    ;
}

/// Updating twice at the same instant is updating once.
pub proof fn lemma_update_at_once_is_idle(farm: Farm, farmer: Farmer, now: u64)
    requires
        can_update_rewards(farm, now, Some(farmer)),
    ensures
        can_update_rewards(
            farm.advanced_to(now),
            now,
            Some(farmer.accrued(farm.advanced_to(now).reward_per_point, now)),
        ),
        farm.advanced_to(now).advanced_to(now) == farm.advanced_to(now),
        farmer.accrued(farm.advanced_to(now).reward_per_point, now).accrued(
            farm.advanced_to(now).reward_per_point,
            now,
        ) == farmer.accrued(farm.advanced_to(now).reward_per_point, now),
{
    lemma_advance_keeps_rewards(farm, now);
    let per_point = farm.advanced_to(now).reward_per_point;
    let once = farmer.accrued(per_point, now);
    assert((per_point - once.reward_per_point_snapshot) * once.rarity_points_staked == 0)
        by (nonlinear_arith)
        requires
            per_point == once.reward_per_point_snapshot,
    ;
}

/// Bringing a farm forward leaves every farmer it accounts for accounted for:
/// the reward per point and the clock only grow.
pub proof fn lemma_advance_accounts_for_all(farm: Farm, now: u64, farmer: Farmer)
    requires
        farm.can_advance_to(now),
        farm.accounts_for(farmer),
    ensures
        farm.advanced_to(now).accounts_for(farmer),
        farm.reward_per_point <= farm.advanced_to(now).reward_per_point,
{
    let emitted = (now - farm.last_update_ts) * farm.emission_rate;
    assert(0 <= emitted) by (nonlinear_arith)
        requires
            0 <= now - farm.last_update_ts,
            0 <= farm.emission_rate,
            emitted == (now - farm.last_update_ts) * farm.emission_rate,
    ;
    if farm.rarity_points_staked != 0 {
        lemma_quotient_bounded(emitted, farm.rarity_points_staked as int);
    }
}

} // verus!
