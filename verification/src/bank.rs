use vstd::prelude::*;
use crate::key::Key;

verus! {

/// The accounts that the bank takes to lock or unlock a vault.
#[derive(Clone, Copy, Debug, PartialEq, Eq, Structural)]
pub struct SetVaultLock {
    pub bank: Key,
    pub vault: Key,
    /// The manager of the bank, who alone may toggle locks.
    pub bank_manager: Key,
}

/// The accounts that the bank takes to hand gems out of a vault.
#[derive(Clone, Copy, Debug, PartialEq, Eq, Structural)]
pub struct WithdrawGem {
    pub bank: Key,
    pub vault: Key,
    /// The owner of the vault, who asks for the gems.
    pub owner: Key,
    /// The authority that the bank holds over the vault.
    pub authority: Key,
    pub gem_box: Key,
    pub gem_deposit_receipt: Key,
    pub gem_destination: Key,
    pub gem_mint: Key,
    pub gem_rarity: Key,
    /// Who receives the rent of accounts that the withdrawal closes.
    pub receiver: Key,
    pub token_program: Key,
    pub associated_token_program: Key,
    pub system_program: Key,
    pub rent: Key,
}

/// A call into another program: the program, the accounts it is handed, and
/// the address, if any, in whose name the caller signs with its seeds.
#[derive(Debug, PartialEq, Eq)]
pub struct CpiContext<T> {
    pub program: Key,
    pub accounts: T,
    pub signer: Option<Key>,
}

impl<T: Copy> Clone for CpiContext<T> {
    fn clone(&self) -> (copy: Self)
        ensures
            copy == *self,
    {
        *self
    }
}

impl<T: Copy> Copy for CpiContext<T> {

}

impl<T> CpiContext<T> {
    /// A call that nobody signs by seeds.
    pub fn new(program: Key, accounts: T) -> (ctx: CpiContext<T>)
        ensures
            ctx == (CpiContext { program, accounts, signer: None }),
    {
        CpiContext { program, accounts, signer: None }
    }

    /// The same call, signed in the name of `signer`.
    pub fn with_signer(self, signer: Key) -> (ctx: CpiContext<T>)
        ensures
            ctx == (CpiContext { signer: Some(signer), ..self }),
    {
        CpiContext { program: self.program, accounts: self.accounts, signer: Some(signer) }
    }
}

} // verus!
