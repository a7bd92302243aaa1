use vstd::prelude::*;
use crate::bank::{CpiContext, SetVaultLock, WithdrawGem};
use crate::error::FarmError;
use crate::key::Key;
use crate::rarity::{calc_rarity_points, RarityTable};
use crate::rewards::can_update_rewards;
use crate::staking::can_stake_extra;
use crate::state::{Farm, Farmer, Vault};

verus! {

/// What the owner asks for: the number of gems, and the bump seeds by which the
/// bank finds its own accounts. The seeds are handed to the bank as they came.
#[derive(Clone, Copy, Debug, PartialEq, Eq, Structural)]
pub struct WithdrawRequest {
    pub bump_vault_auth: u8,
    pub bump_gem_box: u8,
    pub bump_gdr: u8,
    pub bump_rarity: u8,
    pub amount: u64,
}

/// How far a flash withdrawal has come.
#[derive(Clone, Copy, Debug, PartialEq, Eq)]
pub enum Stage {
    /// Nothing is in flight.
    Idle,
    /// The bank was asked to open the vault.
    Unlocking(WithdrawRequest),
    /// The vault is open and the bank was asked to hand out the gems.
    Withdrawing(WithdrawRequest),
    /// The gems are out and the bank was asked to close the vault.
    Relocking(WithdrawRequest),
    /// The withdrawal failed with the fault held here, and the bank was asked to
    /// close the vault before the fault is reported.
    Recovering(FarmError),
    /// The vault is closed again; the clock and the vault's counts were asked for.
    Settling(WithdrawRequest),
}

/// What the surroundings report to the handler.
#[derive(Clone, Copy, Debug, PartialEq, Eq)]
pub enum Event {
    /// The owner invokes a flash withdrawal.
    Invoke(WithdrawRequest),
    /// The bank's answer to `Action::SetVaultLock`. Why the bank refused does
    /// not matter: every refusal is a fault of custody.
    LockSet(Result<(), FarmError>),
    /// The bank's answer to `Action::WithdrawGem`: the number of gems moved.
    Withdrawn(Result<u64, FarmError>),
    /// The answer to `Action::Refresh`: the time, and the vault's counts as the
    /// bank holds them now.
    Refreshed { now_ts: u64, gem_count: u64, rarity_points: u64 },
}

/// What the handler asks of its surroundings.
#[derive(Clone, Copy, Debug, PartialEq, Eq)]
pub enum Action {
    /// Ask the bank to lock or unlock the vault, and report `Event::LockSet`.
    SetVaultLock { lock_ctx: CpiContext<SetVaultLock>, vault_locked: bool },
    /// Ask the bank to move the gems to their destination, and report
    /// `Event::Withdrawn`.
    WithdrawGem {
        withdraw_ctx: CpiContext<WithdrawGem>,
        request: WithdrawRequest,
        min_staking_period_sec: u64,
    },
    /// Read the clock and reload the vault, and report `Event::Refreshed`.
    Refresh,
    /// The withdrawal is done: keep every effect.
    Commit,
    /// The withdrawal failed: undo every effect.
    Abort(FarmError),
}

impl Action {
    /// Whether the action ends the invocation.
    pub open spec fn is_final(self) -> bool {
        self is Commit || self is Abort
    }
}

/// The accounts of one flash withdrawal, and its progress.
#[derive(Clone, Copy, Debug, PartialEq, Eq)]
pub struct FlashWithdraw {
    pub farm: Farm,
    /// The authority presented for the farm. It manages the bank.
    pub farm_authority: Key,
    pub farmer: Farmer,
    /// The owner who signed.
    pub identity: Key,
    pub bank: Key,
    pub vault: Vault,
    pub vault_authority: Key,
    pub gem_box: Key,
    pub gem_deposit_receipt: Key,
    /// Where the gems go.
    pub gem_destination: Key,
    /// The mint of the gems to withdraw.
    pub gem_mint: Key,
    /// The rarity record presented for the gems.
    pub gem_rarity: RarityTable,
    pub receiver: Key,
    pub token_program: Key,
    pub associated_token_program: Key,
    pub system_program: Key,
    pub rent: Key,
    /// The program of the bank.
    pub gem_bank: Key,
    pub stage: Stage,
}

impl FlashWithdraw {
    /// Whether the accounts belong together: the authority is the farm's, the
    /// farmer is enrolled in the farm, the signer owns the farmer, and the vault
    /// is the farmer's.
    pub open spec fn authorized(self) -> bool {
        &&& self.farm.farm_authority == self.farm_authority
        &&& self.farmer.farm == self.farm.key
        &&& self.farmer.identity == self.identity
        &&& self.farmer.vault == self.vault.key
    }

    /// Whether the context is in step with itself: the farm accounts for the
    /// farmer, and the vault is open exactly while the withdrawal or the relock
    /// after it is awaited.
    pub open spec fn wf(self) -> bool {
        &&& self.farm.accounts_for(self.farmer)
        &&& match self.stage {
            Stage::Idle => true,
            Stage::Unlocking(_) => self.vault.locked,
            Stage::Withdrawing(_) => !self.vault.locked,
            Stage::Relocking(_) => !self.vault.locked,
            Stage::Recovering(_) => !self.vault.locked,
            Stage::Settling(_) => self.vault.locked,
        }
    }

    /// The call that locks or unlocks the vault: into the bank, on this bank
    /// and vault, with the farm's authority as the bank's manager.
    pub open spec fn lock_call(self) -> CpiContext<SetVaultLock> {
        CpiContext {
            program: self.gem_bank,
            accounts: SetVaultLock {
                bank: self.bank,
                vault: self.vault.key,
                bank_manager: self.farm_authority,
            },
            signer: None,
        }
    }

    /// The lock call as the handler makes it: signed in the name of the farm's
    /// authority.
    pub open spec fn signed_lock_call(self) -> CpiContext<SetVaultLock> {
        CpiContext { signer: Some(self.farm.farm_authority), ..self.lock_call() }
    }

    /// The call that withdraws gems: into the bank, on this bank and vault, for
    /// the signer as the vault's owner, every other account in its own role.
    pub open spec fn withdraw_call(self) -> CpiContext<WithdrawGem> {
        CpiContext {
            program: self.gem_bank,
            accounts: WithdrawGem {
                bank: self.bank,
                vault: self.vault.key,
                owner: self.identity,
                authority: self.vault_authority,
                gem_box: self.gem_box,
                gem_deposit_receipt: self.gem_deposit_receipt,
                gem_destination: self.gem_destination,
                gem_mint: self.gem_mint,
                gem_rarity: self.gem_rarity.key,
                receiver: self.receiver,
                token_program: self.token_program,
                associated_token_program: self.associated_token_program,
                system_program: self.system_program,
                rent: self.rent,
            },
            signer: None,
        }
    }

    /// The context after every effect of an unfinished withdrawal is undone:
    /// nothing in flight, and the vault locked as it was on entry.
    pub open spec fn rolled_back(self) -> FlashWithdraw {
        FlashWithdraw { vault: Vault { locked: true, ..self.vault }, stage: Stage::Idle, ..self }
    }

    /// The farm after rewards are brought forward to `now` and `amount` gems
    /// are restaked.
    pub open spec fn farm_after(self, amount: u64, now: u64) -> Farm {
        self.farm.advanced_to(now).with_extra_stake(
            amount,
            self.gem_rarity.points_for(amount) as u64,
        )
    }

    /// The farmer after the reward earned by the old stake is accrued at `now`
    /// and `amount` gems are restaked. The staking clock keeps running.
    pub open spec fn farmer_after(self, amount: u64, now: u64) -> Farmer {
        self.farmer.accrued(self.farm.advanced_to(now).reward_per_point, now).with_extra_stake(
            now,
            amount,
            self.gem_rarity.points_for(amount) as u64,
            false,
        )
    }

    /// The fault, if any, that keeps `amount` gems from being restaked at `now`.
    pub open spec fn settle_fault(self, amount: u64, now: u64) -> Option<FarmError> {
        if !can_update_rewards(self.farm, now, Some(self.farmer)) {
            Some(FarmError::Overflow)
        } else if self.gem_rarity.gem_mint != self.gem_mint {
            Some(FarmError::InvalidRarityTable)
        } else if self.gem_rarity.points_for(amount) > u64::MAX {
            Some(FarmError::Overflow)
        } else if !can_stake_extra(
            self.farm.advanced_to(now),
            self.farmer.accrued(self.farm.advanced_to(now).reward_per_point, now),
            amount,
            self.gem_rarity.points_for(amount) as u64,
        ) {
            Some(FarmError::Overflow)
        } else {
            None
        }
    }

    /// What an invocation leads to while nothing is in flight.
    pub open spec fn on_invoke(self, request: WithdrawRequest) -> (FlashWithdraw, Action) {
        if !self.authorized() {
            (self, Action::Abort(FarmError::AuthorizationFault))
        } else if !self.vault.locked {
            (self, Action::Abort(FarmError::CustodyFault))
        } else if request.amount == 0 {
            (self, Action::Commit)
        } else {
            (
                FlashWithdraw { stage: Stage::Unlocking(request), ..self },
                Action::SetVaultLock { lock_ctx: self.signed_lock_call(), vault_locked: false },
            )
        }
    }

    /// What the clock and the reloaded vault lead to once the vault is closed.
    pub open spec fn on_refreshed(
        self,
        request: WithdrawRequest,
        now_ts: u64,
        gem_count: u64,
        rarity_points: u64,
    ) -> (FlashWithdraw, Action) {
        match self.settle_fault(request.amount, now_ts) {
            Some(fault) => (self.rolled_back(), Action::Abort(fault)),
            None => (
                FlashWithdraw {
                    farm: self.farm_after(request.amount, now_ts),
                    farmer: self.farmer_after(request.amount, now_ts),
                    vault: Vault { gem_count, rarity_points, ..self.vault },
                    stage: Stage::Idle,
                    ..self
                },
                Action::Commit,
            ),
        }
    }

    /// The context after `event`, and the action asked for in turn.
    ///
    /// An event that the stage does not wait for ends the withdrawal with a
    /// fault of custody.
    pub open spec fn step(self, event: Event) -> (FlashWithdraw, Action) {
        match (self.stage, event) {
            (Stage::Idle, Event::Invoke(request)) => self.on_invoke(request),
            (Stage::Idle, _) => (self, Action::Abort(FarmError::CustodyFault)),
            (Stage::Unlocking(request), Event::LockSet(Ok(_))) => (
                FlashWithdraw {
                    vault: Vault { locked: false, ..self.vault },
                    stage: Stage::Withdrawing(request),
                    ..self
                },
                Action::WithdrawGem {
                    withdraw_ctx: self.withdraw_call(),
                    request,
                    min_staking_period_sec: self.farm.config.min_staking_period_sec,
                },
            ),
            (Stage::Unlocking(_), Event::LockSet(Err(_))) => (
                self.rolled_back(),
                Action::Abort(FarmError::CustodyFault),
            ),
            (Stage::Withdrawing(request), Event::Withdrawn(Ok(moved))) => if moved
                == request.amount {
                (
                    FlashWithdraw { stage: Stage::Relocking(request), ..self },
                    Action::SetVaultLock { lock_ctx: self.signed_lock_call(), vault_locked: true },
                )
            } else {
                (
                    FlashWithdraw {
                        stage: Stage::Recovering(FarmError::InsufficientCustody),
                        ..self
                    },
                    Action::SetVaultLock { lock_ctx: self.signed_lock_call(), vault_locked: true },
                )
            },
            (Stage::Withdrawing(_), Event::Withdrawn(Err(fault))) => (
                FlashWithdraw { stage: Stage::Recovering(fault), ..self },
                Action::SetVaultLock { lock_ctx: self.signed_lock_call(), vault_locked: true },
            ),
            (Stage::Relocking(request), Event::LockSet(Ok(_))) => (
                FlashWithdraw {
                    vault: Vault { locked: true, ..self.vault },
                    stage: Stage::Settling(request),
                    ..self
                },
                Action::Refresh,
            ),
            (Stage::Relocking(_), Event::LockSet(Err(_))) => (
                self.rolled_back(),
                Action::Abort(FarmError::CustodyFault),
            ),
            (Stage::Recovering(fault), Event::LockSet(_)) => (
                self.rolled_back(),
                Action::Abort(fault),
            ),
            (Stage::Settling(request), Event::Refreshed { now_ts, gem_count, rarity_points }) => {
                self.on_refreshed(request, now_ts, gem_count, rarity_points)
            },
            _ => (self.rolled_back(), Action::Abort(FarmError::CustodyFault)),
        }
    }
}

impl FlashWithdraw {
    /// The call into the bank that locks or unlocks the vault, not yet signed.
    pub fn set_lock_vault_ctx(&self) -> (ctx: CpiContext<SetVaultLock>)
        ensures
            ctx == self.lock_call(),
    {
        CpiContext::new(
            self.gem_bank,
            SetVaultLock {
                bank: self.bank,
                vault: self.vault.key,
                bank_manager: self.farm_authority,
            },
        )
    }

    /// The call into the bank that withdraws gems from the vault.
    pub fn withdraw_gem_ctx(&self) -> (ctx: CpiContext<WithdrawGem>)
        ensures
            ctx == self.withdraw_call(),
    {
        CpiContext::new(
            self.gem_bank,
            WithdrawGem {
                bank: self.bank,
                vault: self.vault.key,
                owner: self.identity,
                authority: self.vault_authority,
                gem_box: self.gem_box,
                gem_deposit_receipt: self.gem_deposit_receipt,
                gem_destination: self.gem_destination,
                gem_mint: self.gem_mint,
                gem_rarity: self.gem_rarity.key,
                receiver: self.receiver,
                token_program: self.token_program,
                associated_token_program: self.associated_token_program,
                system_program: self.system_program,
                rent: self.rent,
            },
        )
    }

    /// Whether the accounts belong together.
    pub fn is_authorized(&self) -> (authorized: bool)
        ensures
            authorized == self.authorized(),
    {
        self.farm.farm_authority.same(&self.farm_authority) && self.farmer.farm.same(
            &self.farm.key,
        ) && self.farmer.identity.same(&self.identity) && self.farmer.vault.same(&self.vault.key)
    }

    /// Undoes what an unfinished withdrawal has done and reports `fault`.
    fn abort(&mut self, fault: FarmError) -> (action: Action)
        ensures
            *final(self) == old(self).rolled_back(),
            action == Action::Abort(fault),
    {
        self.vault.locked = true;
        self.stage = Stage::Idle;
        Action::Abort(fault)
    }

    /// Accrues the reward of the old stake at `now_ts`, then restakes the gems.
    /// Farm and farmer change together or not at all.
    fn settle(
        &mut self,
        request: WithdrawRequest,
        now_ts: u64,
        gem_count: u64,
        rarity_points: u64,
    ) -> (action: Action)
        ensures
            (*final(self), action) == old(self).on_refreshed(
                request,
                now_ts,
                gem_count,
                rarity_points,
            ),
    {
        let mut farm = self.farm;
        let mut farmer = self.farmer;
        if let Err(fault) = farm.update_rewards(now_ts, Some(&mut farmer)) {
            return self.abort(fault);
        }
        let extra_rarity = match calc_rarity_points(
            &self.gem_rarity,
            &self.gem_mint,
            request.amount,
        ) {
            Ok(points) => points,
            Err(fault) => {
                return self.abort(fault);
            },
        };
        if let Err(fault) = farm.stake_extra_gems(
            now_ts,
            request.amount,
            extra_rarity,
            &mut farmer,
            false,
        ) {
            return self.abort(fault);
        }
        self.farm = farm;
        self.farmer = farmer;
        self.vault.gem_count = gem_count;
        self.vault.rarity_points = rarity_points;
        self.stage = Stage::Idle;
        Action::Commit
    }
}

/// Takes one event of a flash withdrawal and says what to do next.
///
/// The caller starts with `Event::Invoke`, performs each action it is handed and
/// reports the outcome as the next event, until the action is `Commit` or
/// `Abort`. The vault is opened only for the withdrawal itself and closed again
/// whatever the withdrawal brought. Farm and farmer change in the last step
/// alone: the reward of the stake as it stood is accrued first, and only then
/// are the gems added to it. On `Abort` the context is as it was on entry.
///
/// An invocation is turned away at once where the accounts do not belong
/// together (`AuthorizationFault`) or the vault is not locked (`CustodyFault`).
/// One that asks for no gems then ends at once with `Commit`, and changes
/// nothing. A bank that moves fewer gems than asked for has failed the
/// withdrawal (`InsufficientCustody`).
pub fn handler(ctx: &mut FlashWithdraw, event: Event) -> (action: Action)
    ensures
        (*final(ctx), action) == old(ctx).step(event),
        action.is_final() ==> final(ctx).stage is Idle,
        !(action is Commit) ==> final(ctx).farm == old(ctx).farm && final(ctx).farmer == old(
            ctx,
        ).farmer,
        old(ctx).wf() ==> final(ctx).wf(),
{
    match (ctx.stage, event) {
        (Stage::Idle, Event::Invoke(request)) => {
            if !ctx.is_authorized() {
                Action::Abort(FarmError::AuthorizationFault)
            } else if !ctx.vault.locked {
                Action::Abort(FarmError::CustodyFault)
            } else if request.amount == 0 {
                Action::Commit
            } else {
                ctx.stage = Stage::Unlocking(request);
                Action::SetVaultLock {
                    lock_ctx: ctx.set_lock_vault_ctx().with_signer(ctx.farm.farm_authority),
                    vault_locked: false,
                }
            }
        },
        (Stage::Idle, _) => Action::Abort(FarmError::CustodyFault),
        (Stage::Unlocking(request), Event::LockSet(Ok(_))) => {
            ctx.vault.locked = false;
            ctx.stage = Stage::Withdrawing(request);
            Action::WithdrawGem {
                withdraw_ctx: ctx.withdraw_gem_ctx(),
                request,
                min_staking_period_sec: ctx.farm.config.min_staking_period_sec,
            }
        },
        (Stage::Unlocking(_), Event::LockSet(Err(_))) => ctx.abort(FarmError::CustodyFault),
        (Stage::Withdrawing(request), Event::Withdrawn(Ok(moved))) => {
            if moved == request.amount {
                ctx.stage = Stage::Relocking(request);
            } else {
                ctx.stage = Stage::Recovering(FarmError::InsufficientCustody);
            }
            Action::SetVaultLock {
                lock_ctx: ctx.set_lock_vault_ctx().with_signer(ctx.farm.farm_authority),
                vault_locked: true,
            }
        },
        (Stage::Withdrawing(_), Event::Withdrawn(Err(fault))) => {
            ctx.stage = Stage::Recovering(fault);
            Action::SetVaultLock {
                lock_ctx: ctx.set_lock_vault_ctx().with_signer(ctx.farm.farm_authority),
                vault_locked: true,
            }
        },
        (Stage::Relocking(request), Event::LockSet(Ok(_))) => {
            ctx.vault.locked = true;
            ctx.stage = Stage::Settling(request);
            Action::Refresh
        },
        (Stage::Relocking(_), Event::LockSet(Err(_))) => ctx.abort(FarmError::CustodyFault),
        (Stage::Recovering(fault), Event::LockSet(_)) => ctx.abort(fault),
        (Stage::Settling(request), Event::Refreshed { now_ts, gem_count, rarity_points }) => {
            ctx.settle(request, now_ts, gem_count, rarity_points)
        },
        _ => ctx.abort(FarmError::CustodyFault),
    }
}

} // verus!
