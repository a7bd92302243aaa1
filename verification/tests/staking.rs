use gem_farm::error::FarmError;
use gem_farm::key::Key;
use gem_farm::state::{Farm, FarmConfig, Farmer};

fn shared_farm() -> Farm {
    Farm {
        key: Key::new(1, 1),
        farm_authority: Key::new(2, 2),
        config: FarmConfig { min_staking_period_sec: 60 },
        gems_staked: 100,
        rarity_points_staked: 400,
        emission_rate: 9,
        reward_per_point: 12,
        last_update_ts: 50,
    }
}

fn one_farmer() -> Farmer {
    Farmer {
        farm: Key::new(1, 1),
        identity: Key::new(3, 3),
        vault: Key::new(4, 4),
        gems_staked: 10,
        rarity_points_staked: 40,
        accrued_reward: 77,
        reward_per_point_snapshot: 12,
        last_accrual_ts: 50,
        stake_start_ts: 20,
    }
}

#[test]
fn stake_extra_adds_the_same_amounts_to_farmer_and_farm() {
    let mut farm = shared_farm();
    let mut farmer = one_farmer();
    assert_eq!(farm.stake_extra_gems(50, 3, 12, &mut farmer, false), Ok(()));
    assert_eq!(farmer.gems_staked, 13);
    assert_eq!(farmer.rarity_points_staked, 52);
    assert_eq!(farm.gems_staked, 103);
    assert_eq!(farm.rarity_points_staked, 412);
}

#[test]
fn stake_extra_touches_nothing_else() {
    let mut farm = shared_farm();
    let mut farmer = one_farmer();
    assert_eq!(farm.stake_extra_gems(55, 3, 12, &mut farmer, false), Ok(()));
    assert_eq!(
        farm,
        Farm { gems_staked: 103, rarity_points_staked: 412, ..shared_farm() }
    );
    assert_eq!(
        farmer,
        Farmer { gems_staked: 13, rarity_points_staked: 52, ..one_farmer() }
    );
}

#[test]
fn stake_clock_restarts_only_on_request() {
    let mut farm = shared_farm();
    let mut farmer = one_farmer();
    assert_eq!(farm.stake_extra_gems(55, 1, 1, &mut farmer, false), Ok(()));
    assert_eq!(farmer.stake_start_ts, 20);
    assert_eq!(farm.stake_extra_gems(56, 1, 1, &mut farmer, true), Ok(()));
    assert_eq!(farmer.stake_start_ts, 56);
}

#[test]
fn staking_nothing_changes_nothing() {
    let mut farm = shared_farm();
    let mut farmer = one_farmer();
    assert_eq!(farm.stake_extra_gems(55, 0, 0, &mut farmer, false), Ok(()));
    assert_eq!(farm, shared_farm());
    assert_eq!(farmer, one_farmer());
}

#[test]
fn farm_gem_total_past_the_maximum_is_an_overflow() {
    let mut farm = shared_farm();
    farm.gems_staked = u64::MAX - 2;
    let mut farmer = one_farmer();
    let before = farm;
    assert_eq!(farm.stake_extra_gems(55, 3, 1, &mut farmer, true), Err(FarmError::Overflow));
    assert_eq!(farm, before);
    assert_eq!(farmer, one_farmer());
    assert_eq!(farm.stake_extra_gems(55, 2, 1, &mut farmer, false), Ok(()));
    assert_eq!(farm.gems_staked, u64::MAX);
}

#[test]
fn farm_rarity_total_past_the_maximum_is_an_overflow() {
    let mut farm = shared_farm();
    farm.rarity_points_staked = u64::MAX;
    let mut farmer = one_farmer();
    let before = farm;
    assert_eq!(farm.stake_extra_gems(55, 1, 1, &mut farmer, false), Err(FarmError::Overflow));
    assert_eq!(farm, before);
    assert_eq!(farmer, one_farmer());
}

#[test]
fn farmer_stake_past_the_maximum_is_an_overflow() {
    let mut farm = shared_farm();
    let mut farmer = one_farmer();
    farmer.gems_staked = u64::MAX;
    let before = farmer;
    assert_eq!(farm.stake_extra_gems(55, 1, 1, &mut farmer, false), Err(FarmError::Overflow));
    assert_eq!(farm, shared_farm());
    assert_eq!(farmer, before);
    let mut farmer = one_farmer();
    farmer.rarity_points_staked = u64::MAX - 1;
    let before = farmer;
    assert_eq!(farm.stake_extra_gems(55, 1, 2, &mut farmer, false), Err(FarmError::Overflow));
    assert_eq!(farm, shared_farm());
    assert_eq!(farmer, before);
}

#[test]
fn totals_stay_the_sums_over_the_farmers() {
    let mut farmers = vec![one_farmer(), one_farmer(), one_farmer()];
    farmers[1].gems_staked = 30;
    farmers[1].rarity_points_staked = 60;
    farmers[2].gems_staked = 60;
    farmers[2].rarity_points_staked = 300;
    let mut farm = shared_farm();
    assert_eq!(farm.gems_staked, farmers.iter().map(|f| f.gems_staked).sum::<u64>());
    assert_eq!(
        farm.rarity_points_staked,
        farmers.iter().map(|f| f.rarity_points_staked).sum::<u64>()
    );
    assert_eq!(farm.stake_extra_gems(55, 4, 9, &mut farmers[1], false), Ok(()));
    assert_eq!(farm.gems_staked, farmers.iter().map(|f| f.gems_staked).sum::<u64>());
    assert_eq!(
        farm.rarity_points_staked,
        farmers.iter().map(|f| f.rarity_points_staked).sum::<u64>()
    );
}
