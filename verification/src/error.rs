use vstd::prelude::*;

verus! {

/// The ways a flash withdrawal can fail.
#[derive(Clone, Copy, Debug, PartialEq, Eq, Structural)]
pub enum FarmError {
    /// The caller is not the registered owner, or holds no authority over the lock.
    AuthorizationFault,
    /// The vault is in the middle of another operation, or the lock toggle was refused.
    CustodyFault,
    /// The vault holds fewer gems than were asked for.
    InsufficientCustody,
    /// The gems have not been held for the minimum period.
    PrematureWithdrawal,
    /// The rarity record does not belong to the kind of gem being withdrawn.
    InvalidRarityTable,
    /// A total would leave the range of its integer type.
    Overflow,
}

} // verus!
