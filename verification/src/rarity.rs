use vstd::prelude::*;
use crate::error::FarmError;
use crate::key::Key;

verus! {

/// The rarity record of one kind of gem.
#[derive(Clone, Copy, Debug, PartialEq, Eq)]
pub struct RarityTable {
    /// The address at which the record is kept.
    pub key: Key,
    /// The mint of the gems that the record rates.
    pub gem_mint: Key,
    /// Rarity points of a single gem. A kind that was never rated has `None`,
    /// and each of its gems counts for one point.
    pub points: Option<u16>,
}

impl RarityTable {
    /// Rarity points of a single gem.
    pub open spec fn points_per_gem(self) -> int {
        match self.points {
            Some(p) => p as int,
            None => 1,
        }
    }

    /// Rarity points of `amount` gems taken together.
    pub open spec fn points_for(self, amount: u64) -> int {
        amount * self.points_per_gem()
    }
}

/// The rarity points of `amount` gems of the kind `gem_mint`.
///
/// Fails with `InvalidRarityTable` where the record rates another kind of gem,
/// and otherwise with `Overflow` where the sum does not fit.
pub fn calc_rarity_points(table: &RarityTable, gem_mint: &Key, amount: u64) -> (result: Result<
    u64,
    FarmError,
>)
    ensures
        table.gem_mint != *gem_mint ==> result == Err::<u64, FarmError>(
            FarmError::InvalidRarityTable,
        ),
        table.gem_mint == *gem_mint && table.points_for(amount) > u64::MAX ==> result == Err::<
            u64,
            FarmError,
        >(FarmError::Overflow),
        table.gem_mint == *gem_mint && table.points_for(amount) <= u64::MAX ==> result == Ok::<
            u64,
            FarmError,
        >(table.points_for(amount) as u64),
{
    if !table.gem_mint.same(gem_mint) {
        return Err(FarmError::InvalidRarityTable);
    }
    let per_gem: u64 = match table.points {
        Some(p) => p as u64,
        None => 1,
    };
    match amount.checked_mul(per_gem) {
        Some(points) => Ok(points),
        None => Err(FarmError::Overflow),
    }
}

} // verus!
