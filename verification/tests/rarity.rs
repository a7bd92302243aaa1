use gem_farm::error::FarmError;
use gem_farm::key::Key;
use gem_farm::rarity::{calc_rarity_points, RarityTable};

#[test]
fn rated_gems_count_their_points_each() {
    let mint = Key::new(5, 5);
    let table = RarityTable { key: Key::new(9, 9), gem_mint: mint, points: Some(7) };
    assert_eq!(calc_rarity_points(&table, &mint, 3), Ok(21));
    assert_eq!(calc_rarity_points(&table, &mint, 1), Ok(7));
}

#[test]
fn unrated_gems_count_one_point_each() {
    let mint = Key::new(5, 5);
    let table = RarityTable { key: Key::new(9, 9), gem_mint: mint, points: None };
    assert_eq!(calc_rarity_points(&table, &mint, 5), Ok(5));
    assert_eq!(calc_rarity_points(&table, &mint, u64::MAX), Ok(u64::MAX));
}

#[test]
fn no_gems_have_no_points() {
    let mint = Key::new(5, 5);
    let table = RarityTable { key: Key::new(9, 9), gem_mint: mint, points: Some(u16::MAX) };
    assert_eq!(calc_rarity_points(&table, &mint, 0), Ok(0));
}

#[test]
fn gems_rated_zero_have_no_points() {
    let mint = Key::new(5, 5);
    let table = RarityTable { key: Key::new(9, 9), gem_mint: mint, points: Some(0) };
    assert_eq!(calc_rarity_points(&table, &mint, 12), Ok(0));
}

#[test]
fn table_of_another_mint_is_invalid() {
    let table = RarityTable { key: Key::new(9, 9), gem_mint: Key::new(5, 5), points: Some(7) };
    assert_eq!(
        calc_rarity_points(&table, &Key::new(5, 6), 3),
        Err(FarmError::InvalidRarityTable)
    );
    assert_eq!(
        calc_rarity_points(&table, &Key::new(6, 5), 0),
        Err(FarmError::InvalidRarityTable)
    );
}

#[test]
fn mismatch_is_reported_before_overflow() {
    let table = RarityTable { key: Key::new(9, 9), gem_mint: Key::new(5, 5), points: Some(2) };
    assert_eq!(
        calc_rarity_points(&table, &Key::new(1, 1), u64::MAX),
        Err(FarmError::InvalidRarityTable)
    );
}

#[test]
fn points_past_the_maximum_are_an_overflow() {
    let mint = Key::new(5, 5);
    let table = RarityTable { key: Key::new(9, 9), gem_mint: mint, points: Some(2) };
    assert_eq!(calc_rarity_points(&table, &mint, u64::MAX / 2), Ok(u64::MAX - 1));
    assert_eq!(calc_rarity_points(&table, &mint, u64::MAX / 2 + 1), Err(FarmError::Overflow));
}

#[test]
fn keys_are_the_same_only_when_both_halves_are() {
    let key = Key::new(1, 2);
    assert!(key.same(&Key::new(1, 2)));
    assert!(!key.same(&Key::new(1, 3)));
    assert!(!key.same(&Key::new(2, 2)));
    assert_eq!(key, Key { hi: 1, lo: 2 });
}
