use vstd::prelude::*;
use crate::error::FarmError;
use crate::flash_withdraw::{Action, Event, FlashWithdraw, Stage, WithdrawRequest};
use crate::rewards::{
    emitted_per_point, lemma_advance_accounts_for_all, lemma_nothing_emitted_at_once,
};
use crate::staking::{lemma_totals_after_change, totals_match};
use crate::state::Farmer;

verus! {

/// The context and the action after `events` were handled one after another,
/// starting from `ctx`.
pub open spec fn run(ctx: FlashWithdraw, events: Seq<Event>) -> (FlashWithdraw, Action)
    recommends
        events.len() > 0,
    decreases events.len(),
{
    if events.len() <= 1 {
        ctx.step(events[0])
    } else {
        run(ctx, events.drop_last()).0.step(events.last())
    }
}

/// Whether `events` is one invocation on `ctx`: nothing was in flight, the first
/// event invokes, and the caller went on only while the handler asked for more.
pub open spec fn is_invocation(ctx: FlashWithdraw, events: Seq<Event>) -> bool {
    &&& ctx.stage is Idle
    &&& events.len() >= 1
    &&& events[0] is Invoke
    &&& forall|k: int| 1 <= k < events.len() ==> !(#[trigger] run(ctx, events.take(k))).1.is_final()
}

/// The request that an invocation began with.
pub open spec fn request_of(events: Seq<Event>) -> WithdrawRequest
    recommends
        events.len() >= 1,
        events[0] is Invoke,
{
    events[0]->Invoke_0
}

/// What holds of a context between the first event of an invocation and its
/// last: the request was let through, farm, farmer and the vault's counts are
/// untouched, and the vault is open exactly while the withdrawal is under way.
pub open spec fn in_flight(entry: FlashWithdraw, request: WithdrawRequest, ctx: FlashWithdraw) -> bool {
    &&& entry.stage is Idle
    &&& entry.authorized()
    &&& entry.vault.locked
    &&& request.amount > 0
    &&& ctx.rolled_back() == entry
    &&& match ctx.stage {
        Stage::Idle => false,
        Stage::Unlocking(r) => r == request && ctx.vault.locked,
        Stage::Withdrawing(r) => r == request && !ctx.vault.locked,
        Stage::Relocking(r) => r == request && !ctx.vault.locked,
        Stage::Recovering(_) => !ctx.vault.locked,
        Stage::Settling(r) => r == request && ctx.vault.locked,
    }
}

/// What holds of the context that a successful invocation leaves behind.
pub open spec fn committed(entry: FlashWithdraw, events: Seq<Event>, ctx: FlashWithdraw) -> bool {
    if events.len() == 1 {
        &&& request_of(events).amount == 0
        &&& entry.authorized()
        &&& entry.vault.locked
        &&& ctx == entry
    } else {
        &&& request_of(events).amount > 0
        &&& entry.authorized()
        &&& entry.vault.locked
        &&& events.len() == 5
        &&& events.last() matches Event::Refreshed { now_ts, gem_count, rarity_points }
        &&& entry.settle_fault(request_of(events).amount, now_ts) is None
        &&& ctx == entry.on_refreshed(request_of(events), now_ts, gem_count, rarity_points).0
    }
}

proof fn lemma_take_prefix(events: Seq<Event>, k: int)
    requires
        1 <= k < events.len(),
    ensures
        events.drop_last().take(k) == events.take(k),
        events.take(events.len() - 1) == events.drop_last(),
        events.take(k)[0] == events[0],
{
}

proof fn lemma_prefix_is_invocation(ctx: FlashWithdraw, events: Seq<Event>)
    requires
        is_invocation(ctx, events),
        events.len() >= 2,
    ensures
        is_invocation(ctx, events.drop_last()),
        !run(ctx, events.drop_last()).1.is_final(),
{
    let shorter = events.drop_last();
    assert forall|k: int| 1 <= k < shorter.len() implies !(#[trigger] run(
        ctx,
        shorter.take(k),
    )).1.is_final() by {
        lemma_take_prefix(events, k);
        assert(!run(ctx, events.take(k)).1.is_final());
    }
    lemma_take_prefix(events, events.len() - 1);
    assert(!run(ctx, events.take(events.len() - 1)).1.is_final());
}

/// What the handler asked for when it brought a withdrawal to `stage`: to open
/// the vault, then to withdraw, then to close the vault, whether the withdrawal
/// succeeded or not, then to read the clock and reload the vault. Every call
/// goes to the bank and the vault of entry, and every lock call is signed in
/// the name of the farm's authority.
pub open spec fn asked_at(entry: FlashWithdraw, request: WithdrawRequest, stage: Stage) -> Action {
    match stage {
        Stage::Idle => Action::Commit,
        Stage::Unlocking(_) => Action::SetVaultLock {
            lock_ctx: entry.signed_lock_call(),
            vault_locked: false,
        },
        Stage::Withdrawing(_) => Action::WithdrawGem {
            withdraw_ctx: entry.withdraw_call(),
            request,
            min_staking_period_sec: entry.farm.config.min_staking_period_sec,
        },
        Stage::Relocking(_) => Action::SetVaultLock {
            lock_ctx: entry.signed_lock_call(),
            vault_locked: true,
        },
        Stage::Recovering(_) => Action::SetVaultLock {
            lock_ctx: entry.signed_lock_call(),
            vault_locked: true,
        },
        Stage::Settling(_) => Action::Refresh,
    }
}

/// One more event on a withdrawal in flight either keeps it in flight, or
/// aborts it and restores the context of entry, or commits it.
proof fn lemma_step_in_flight(
    entry: FlashWithdraw,
    request: WithdrawRequest,
    ctx: FlashWithdraw,
    event: Event,
)
    requires
        in_flight(entry, request, ctx),
    ensures
        !ctx.step(event).1.is_final() ==> {
            &&& in_flight(entry, request, ctx.step(event).0)
            &&& events_before(ctx.step(event).0.stage) == events_before(ctx.stage) + 1
            &&& ctx.step(event).1 == asked_at(entry, request, ctx.step(event).0.stage)
        },
        ctx.step(event).1 is Abort ==> ctx.step(event).0 == entry,
        ctx.step(event).1 is Commit ==> {
            &&& ctx.stage is Settling
            &&& event matches Event::Refreshed { now_ts, gem_count, rarity_points }
            &&& entry.settle_fault(request.amount, now_ts) is None
            &&& ctx.step(event).0 == entry.on_refreshed(
                request,
                now_ts,
                gem_count,
                rarity_points,
            ).0
        },
{
    if ctx.stage is Settling {
        assert(ctx.vault == entry.vault);
    }
}

/// The number of events after which a withdrawal in flight stands at a stage.
pub open spec fn events_before(stage: Stage) -> int {
    match stage {
        Stage::Idle => 0,
        Stage::Unlocking(_) => 1,
        Stage::Withdrawing(_) => 2,
        Stage::Relocking(_) => 3,
        Stage::Recovering(_) => 3,
        Stage::Settling(_) => 4,
    }
}

/// Every unfinished prefix of an invocation leaves the withdrawal in flight, at
/// the stage that its length gives.
proof fn lemma_unfinished_is_in_flight(entry: FlashWithdraw, events: Seq<Event>)
    requires
        is_invocation(entry, events),
        !run(entry, events).1.is_final(),
    ensures
        in_flight(entry, request_of(events), run(entry, events).0),
        events_before(run(entry, events).0.stage) == events.len(),
        run(entry, events).1 == asked_at(entry, request_of(events), run(entry, events).0.stage),
    decreases events.len(),
{
    if events.len() >= 2 {
        lemma_prefix_is_invocation(entry, events);
        lemma_unfinished_is_in_flight(entry, events.drop_last());
        let before = run(entry, events.drop_last()).0;
        lemma_step_in_flight(entry, request_of(events), before, events.last());
    }
}

/// An invocation that ends in `Abort` leaves the whole context as it found it:
/// farm, farmer and vault are untouched and nothing is in flight. Where the
/// bank had been engaged, the vault is locked.
pub proof fn lemma_abort_restores_entry(entry: FlashWithdraw, events: Seq<Event>)
    requires
        is_invocation(entry, events),
        run(entry, events).1 is Abort,
    ensures
        run(entry, events).0 == entry,
        events.len() >= 2 ==> run(entry, events).0.vault.locked,
{
    if events.len() >= 2 {
        lemma_prefix_is_invocation(entry, events);
        lemma_unfinished_is_in_flight(entry, events.drop_last());
        lemma_step_in_flight(
            entry,
            request_of(events),
            run(entry, events.drop_last()).0,
            events.last(),
        );
    }
}

/// An invocation that ends in `Commit` either asked for no gems and changed
/// nothing, or went through all five steps and left what the last step computes
/// from the context of entry.
pub proof fn lemma_commit_is_settled(entry: FlashWithdraw, events: Seq<Event>)
    requires
        is_invocation(entry, events),
        run(entry, events).1 is Commit,
    ensures
        committed(entry, events, run(entry, events).0),
{
    if events.len() >= 2 {
        lemma_prefix_is_invocation(entry, events);
        lemma_unfinished_is_in_flight(entry, events.drop_last());
        lemma_step_in_flight(
            entry,
            request_of(events),
            run(entry, events.drop_last()).0,
            events.last(),
        );
    }
}

/// The vault is locked when a successful invocation begins and when it ends.
pub proof fn lemma_commit_keeps_vault_locked(entry: FlashWithdraw, events: Seq<Event>)
    requires
        is_invocation(entry, events),
        run(entry, events).1 is Commit,
    ensures
        entry.vault.locked,
        run(entry, events).0.vault.locked,
        run(entry, events).0.stage is Idle,
{
    lemma_commit_is_settled(entry, events);
}

/// The steps of an invocation come in one order. While it is under way, the
/// stage reached tells how many events were handled, and the action asked for
/// is the one that belongs to that stage: unlock, withdraw, relock, refresh.
/// The vault is open only between the bank's word that it opened the vault and
/// its word that it closed it again. Farm and farmer are untouched throughout.
pub proof fn lemma_steps_come_in_order(entry: FlashWithdraw, events: Seq<Event>)
    requires
        is_invocation(entry, events),
        !run(entry, events).1.is_final(),
    ensures
        events_before(run(entry, events).0.stage) == events.len(),
        run(entry, events).1 == asked_at(entry, request_of(events), run(entry, events).0.stage),
        !run(entry, events).0.vault.locked <==> {
            ||| run(entry, events).0.stage is Withdrawing
            ||| run(entry, events).0.stage is Relocking
            ||| run(entry, events).0.stage is Recovering
        },
        run(entry, events).0.farm == entry.farm,
        run(entry, events).0.farmer == entry.farmer,
{
    lemma_unfinished_is_in_flight(entry, events);
}

/// A successful invocation adds exactly the requested gems, and exactly their
/// rarity points, to the farmer's stake and to the farm's totals. The farmer's
/// staking clock keeps running.
pub proof fn lemma_commit_adds_exact_stake(entry: FlashWithdraw, events: Seq<Event>)
    requires
        is_invocation(entry, events),
        run(entry, events).1 is Commit,
    ensures
        ({
            let done = run(entry, events).0;
            let amount = request_of(events).amount;
            let points = entry.gem_rarity.points_for(amount);
            &&& done.farmer.gems_staked == entry.farmer.gems_staked + amount
            &&& done.farm.gems_staked == entry.farm.gems_staked + amount
            &&& done.farmer.rarity_points_staked == entry.farmer.rarity_points_staked + points
            &&& done.farm.rarity_points_staked == entry.farm.rarity_points_staked + points
            &&& done.farmer.stake_start_ts == entry.farmer.stake_start_ts
        }),
{
    lemma_commit_is_settled(entry, events);
    if events.len() == 1 {
        assert(entry.gem_rarity.points_for(0) == 0) by (nonlinear_arith)
            requires
                entry.gem_rarity.points_for(0) == 0 * entry.gem_rarity.points_per_gem(),
        ;
    }
}

/// The time at which an invocation that restaked gems settled.
pub open spec fn settled_at(events: Seq<Event>) -> u64
    recommends
        events.len() >= 1,
        events.last() is Refreshed,
{
    events.last()->now_ts
}

/// A restake does not dilute what was earned before it.
///
/// Take any farmer's reward at the moment another farmer's flash withdrawal
/// settles, once against the farm as it was on entry and once against the farm
/// as the withdrawal left it: the two are equal. At any later time the reward
/// has grown by what was emitted per rarity point since, for each point the
/// farmer has staked, and by nothing else. The farmer who restaked is credited
/// for the stake held before the restake.
pub proof fn lemma_restake_does_not_dilute(
    entry: FlashWithdraw,
    events: Seq<Event>,
    other: Farmer,
    later: u64,
)
    requires
        is_invocation(entry, events),
        run(entry, events).1 is Commit,
        request_of(events).amount > 0,
        settled_at(events) <= later,
    ensures
        ({
            let done = run(entry, events).0;
            let now = settled_at(events);
            let earned_by_now = other.reward_at(entry.farm.reward_per_point_at(now as int));
            &&& other.reward_at(done.farm.reward_per_point_at(now as int)) == earned_by_now
            &&& other.reward_at(done.farm.reward_per_point_at(later as int)) == earned_by_now
                + emitted_per_point(
                done.farm.emission_rate as int,
                done.farm.rarity_points_staked as int,
                later - now,
            ) * other.rarity_points_staked
            &&& done.farmer.accrued_reward == entry.farmer.reward_at(
                entry.farm.reward_per_point_at(now as int),
            )
            &&& done.farmer.reward_per_point_snapshot == entry.farm.reward_per_point_at(now as int)
        }),
{
    lemma_commit_is_settled(entry, events);
    let done = run(entry, events).0;
    let now = settled_at(events);
    lemma_nothing_emitted_at_once(
        done.farm.emission_rate as int,
        done.farm.rarity_points_staked as int,
    );
    let at_entry = entry.farm.reward_per_point_at(now as int);
    let since = emitted_per_point(
        done.farm.emission_rate as int,
        done.farm.rarity_points_staked as int,
        later - now,
    );
    assert(done.farm.reward_per_point == at_entry);
    assert(done.farm.reward_per_point_at(later as int) == at_entry + since);
    assert((at_entry + since - other.reward_per_point_snapshot) * other.rarity_points_staked == (
    at_entry - other.reward_per_point_snapshot) * other.rarity_points_staked + since
        * other.rarity_points_staked) by (nonlinear_arith);
}

/// An invocation for no gems is a no-op: it ends at once, leaves the whole
/// context as it was and asks nothing of the bank. It succeeds where the same
/// invocation for some gems would have been let through to the bank, and is
/// turned away with the same fault where that would have been.
pub proof fn lemma_no_gems_no_change(ctx: FlashWithdraw, request: WithdrawRequest)
    requires
        ctx.stage is Idle,
        request.amount == 0,
    ensures
        ctx.step(Event::Invoke(request)).0 == ctx,
        ctx.authorized() && ctx.vault.locked <==> ctx.step(Event::Invoke(request)).1
            == Action::Commit,
        !ctx.authorized() <==> ctx.step(Event::Invoke(request)).1 == Action::Abort(
            FarmError::AuthorizationFault,
        ),
        ctx.authorized() && !ctx.vault.locked <==> ctx.step(Event::Invoke(request)).1
            == Action::Abort(FarmError::CustodyFault),
{
}

/// Where the gems of a withdrawal would push the farmer's stake or the farm's
/// totals out of range, the last step aborts with `Overflow` and restores the
/// context of entry; no total is changed.
pub proof fn lemma_overflow_aborts(
    entry: FlashWithdraw,
    events: Seq<Event>,
    now_ts: u64,
    gem_count: u64,
    rarity_points: u64,
)
    requires
        is_invocation(entry, events),
        run(entry, events).0.stage is Settling,
        !run(entry, events).1.is_final(),
        entry.gem_rarity.gem_mint == entry.gem_mint,
        ({
            let amount = request_of(events).amount;
            let points = entry.gem_rarity.points_for(amount);
            ||| entry.farmer.gems_staked + amount > u64::MAX
            ||| entry.farm.gems_staked + amount > u64::MAX
            ||| entry.farmer.rarity_points_staked + points > u64::MAX
            ||| entry.farm.rarity_points_staked + points > u64::MAX
        }),
    ensures
        run(entry, events.push(Event::Refreshed { now_ts, gem_count, rarity_points })) == (
            entry,
            Action::Abort(FarmError::Overflow),
        ),
{
    lemma_unfinished_is_in_flight(entry, events);
    let ctx = run(entry, events).0;
    let event = Event::Refreshed { now_ts, gem_count, rarity_points };
    let longer = events.push(event);
    assert(longer.drop_last() == events);
    assert(longer.last() == event);
    assert(ctx.vault == entry.vault);
    let amount = request_of(events).amount;
    assert(ctx.settle_fault(amount, now_ts) == Some(FarmError::Overflow));
}

/// A successful invocation keeps the farm's totals equal to the sums over its
/// farmers, whichever of them restaked.
pub proof fn lemma_commit_keeps_totals(
    entry: FlashWithdraw,
    events: Seq<Event>,
    farmers: Seq<Farmer>,
    i: int,
)
    requires
        is_invocation(entry, events),
        run(entry, events).1 is Commit,
        0 <= i < farmers.len(),
        farmers[i] == entry.farmer,
        totals_match(entry.farm, farmers),
    ensures
        totals_match(run(entry, events).0.farm, farmers.update(i, run(entry, events).0.farmer)),
{
    lemma_commit_adds_exact_stake(entry, events);
    lemma_totals_after_change(farmers, i, run(entry, events).0.farmer);
}

/// What the surroundings answer in the course of one flash withdrawal, each
/// answer in its turn.
pub struct Replies {
    /// The bank's answer to the request to open the vault.
    pub unlock: Result<(), FarmError>,
    /// The bank's answer to the withdrawal: the number of gems moved.
    pub withdrawal: Result<u64, FarmError>,
    /// The bank's answer to the request to close the vault.
    pub relock: Result<(), FarmError>,
    /// The clock, read once the vault is closed.
    pub now_ts: u64,
    /// The vault's gem count, reloaded once the vault is closed.
    pub gem_count: u64,
    /// The vault's rarity points, reloaded once the vault is closed.
    pub rarity_points: u64,
}

impl Replies {
    /// The invocation and the answers as events, in the order of their turns.
    pub open spec fn events(self, request: WithdrawRequest) -> Seq<Event> {
        seq![
            Event::Invoke(request),
            Event::LockSet(self.unlock),
            Event::Withdrawn(self.withdrawal),
            Event::LockSet(self.relock),
            Event::Refreshed {
                now_ts: self.now_ts,
                gem_count: self.gem_count,
                rarity_points: self.rarity_points,
            },
        ]
    }
}

impl FlashWithdraw {
    /// The fault, if any, with which a flash withdrawal ends, step by step:
    /// the accounts must belong together and the vault be locked; the bank must
    /// open the vault, hand out all the gems and close the vault again; then
    /// rewards must accrue, the rarity record match, and the totals fit.
    /// The first fault met is the one reported.
    pub open spec fn fault_with(self, request: WithdrawRequest, replies: Replies) -> Option<
        FarmError,
    > {
        if !self.authorized() {
            Some(FarmError::AuthorizationFault)
        } else if !self.vault.locked {
            Some(FarmError::CustodyFault)
        } else if request.amount == 0 {
            None
        } else if replies.unlock is Err {
            Some(FarmError::CustodyFault)
        } else if replies.withdrawal is Err {
            Some(replies.withdrawal->Err_0)
        } else if replies.withdrawal->Ok_0 != request.amount {
            Some(FarmError::InsufficientCustody)
        } else if replies.relock is Err {
            Some(FarmError::CustodyFault)
        } else {
            self.settle_fault(request.amount, replies.now_ts)
        }
    }

    /// How many events a flash withdrawal takes: one where it ends on entry,
    /// two where the vault does not open, four where the withdrawal or the
    /// relock fails, since the relock is awaited in either case, and five
    /// otherwise.
    pub open spec fn events_taken(self, request: WithdrawRequest, replies: Replies) -> int {
        if !self.authorized() || !self.vault.locked || request.amount == 0 {
            1
        } else if replies.unlock is Err {
            2
        } else if replies.withdrawal != Ok::<u64, FarmError>(request.amount)
            || replies.relock is Err {
            4
        } else {
            5
        }
    }

    /// The context that a flash withdrawal leaves behind: the context of entry
    /// where it fails or asks for no gems, and otherwise that context with the
    /// reward accrued, the gems restaked and the vault's counts reloaded.
    pub open spec fn outcome_with(self, request: WithdrawRequest, replies: Replies) -> (
        FlashWithdraw,
        Action,
    ) {
        match self.fault_with(request, replies) {
            Some(fault) => (self, Action::Abort(fault)),
            None => if request.amount == 0 {
                (self, Action::Commit)
            } else {
                (
                    FlashWithdraw {
                        farm: self.farm_after(request.amount, replies.now_ts),
                        farmer: self.farmer_after(request.amount, replies.now_ts),
                        vault: crate::state::Vault {
                            gem_count: replies.gem_count,
                            rarity_points: replies.rarity_points,
                            ..self.vault
                        },
                        ..self
                    },
                    Action::Commit,
                )
            },
        }
    }
}

/// Handling an invocation and then the answers of the surroundings, each in
/// its turn, is one invocation; it ends after the number of events that the
/// answers give, with the outcome of the step-by-step description.
pub proof fn lemma_handler_follows_the_steps(
    entry: FlashWithdraw,
    request: WithdrawRequest,
    replies: Replies,
)
    requires
        entry.stage is Idle,
    ensures
        ({
            let taken = replies.events(request).take(entry.events_taken(request, replies));
            &&& is_invocation(entry, taken)
            &&& run(entry, taken) == entry.outcome_with(request, replies)
        }),
{
    let all = replies.events(request);
    let taken = all.take(entry.events_taken(request, replies));
    reveal_with_fuel(run, 5);
    assert forall|k: int| 1 <= k <= taken.len() implies #[trigger] taken.take(k) == all.take(k) by {}
    assert forall|k: int| 2 <= k <= 5 implies #[trigger] all.take(k).drop_last() == all.take(
        k - 1,
    ) by {}
    if taken.len() == 5 {
        assert(run(entry, all.take(4)).0.vault == entry.vault);
    }
}

/// A finished invocation leaves every farmer that the farm accounted for on
/// entry accounted for: whoever restaked, the others' records stay in step.
pub proof fn lemma_others_stay_accounted_for(
    entry: FlashWithdraw,
    events: Seq<Event>,
    other: Farmer,
)
    requires
        is_invocation(entry, events),
        run(entry, events).1.is_final(),
        entry.farm.accounts_for(other),
    ensures
        run(entry, events).0.farm.accounts_for(other),
{
    if run(entry, events).1 is Abort {
        lemma_abort_restores_entry(entry, events);
    } else {
        lemma_commit_is_settled(entry, events);
        if events.len() > 1 {
            lemma_advance_accounts_for_all(entry.farm, settled_at(events), other);
        }
    }
}

} // verus!
