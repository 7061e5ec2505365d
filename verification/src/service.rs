use vstd::prelude::*;

use crate::config::StateConfig;
use crate::errors::ErrorCode;
use crate::position::{
    contains_key, index_of_key, key_is, keys_unique, position_at, AssetClass, PositionStore,
    StakePosition,
};
use crate::reward::{
    accrue, accrue_overflows, join_bonus, rate_for, spec_accrue, spec_join_bonus, spec_rate_for,
};
use crate::user_account::UserAccount;

verus! {

/// What a successful `unstake` releases: the deposited amount handed back
/// to the owner and the reward minted for the elapsed time.
#[derive(Clone, Copy, Debug, PartialEq, Eq, Structural)]
pub struct Unstaked {
    pub amount: u64,
    pub reward: u64,
}

/// The position a successful stake records.
pub open spec fn new_position(
    owner: u64,
    class: AssetClass,
    amount: u64,
    seed: u64,
    locked: bool,
    lock_period: u64,
    now: u64,
) -> StakePosition {
    StakePosition { owner, asset_class: class, seed, amount, staked_at: now, lock_period, locked }
}

/// Whether any checked step of a stake would exceed 64 bits: the join
/// bonus itself, the points credit, or the per-class aggregate.
pub open spec fn stake_overflows(
    config: StateConfig,
    user: UserAccount,
    class: AssetClass,
    amount: u64,
) -> bool {
    ||| spec_join_bonus(class, amount, config) > u64::MAX
    ||| user.points + spec_join_bonus(class, amount, config) > u64::MAX
    ||| user.staked_amount(class) + amount > u64::MAX
}

/// Whether a stake request passes every check and will be applied.
pub open spec fn stake_accepted(
    pre_store: Seq<StakePosition>,
    config: StateConfig,
    user: UserAccount,
    owner: u64,
    class: AssetClass,
    amount: u64,
    seed: u64,
    lock_period: u64,
) -> bool {
    &&& lock_period >= config.min_freeze_period
    &&& !stake_overflows(config, user, class, amount)
    &&& !contains_key(pre_store, owner, class, seed)
}

/// Everything `stake` may do, relating the stores and the user account
/// before and after the call to the request and the outcome `r`.
///
/// A failed call leaves both untouched. The errors come in validation
/// order: a lock period below the configured minimum, then any 64-bit
/// overflow among the checked steps, then a position key already in use.
/// A successful call returns the join bonus, credits it to the user's
/// points, raises the per-class aggregate by the deposited amount, and
/// records the new position; the external ledger is then authorized to
/// take `amount` into custody and mint the returned bonus.
pub open spec fn stake_contract(
    pre_store: Seq<StakePosition>,
    post_store: Seq<StakePosition>,
    pre_user: UserAccount,
    post_user: UserAccount,
    config: StateConfig,
    owner: u64,
    class: AssetClass,
    amount: u64,
    seed: u64,
    locked: bool,
    lock_period: u64,
    now: u64,
    r: Result<u64, ErrorCode>,
) -> bool {
    &&& (r is Err ==> post_store == pre_store && post_user == pre_user)
    &&& (r == Err::<u64, ErrorCode>(ErrorCode::InvalidLockPeriod) <==> lock_period
        < config.min_freeze_period)
    &&& (lock_period >= config.min_freeze_period ==> (r == Err::<u64, ErrorCode>(
        ErrorCode::Overflow,
    ) <==> stake_overflows(config, pre_user, class, amount)))
    &&& (lock_period >= config.min_freeze_period && !stake_overflows(config, pre_user, class, amount)
        ==> (r == Err::<u64, ErrorCode>(ErrorCode::DuplicatePosition) <==> contains_key(
        pre_store,
        owner,
        class,
        seed,
    )))
    &&& (r is Ok <==> stake_accepted(pre_store, config, pre_user, owner, class, amount, seed, lock_period))
    &&& (r matches Ok(bonus) ==> bonus == spec_join_bonus(class, amount, config))
    &&& (r is Ok ==> post_user == pre_user.with_points(
        (pre_user.points + spec_join_bonus(class, amount, config)) as u64,
    ).with_staked_amount(class, (pre_user.staked_amount(class) + amount) as u64))
    &&& (r is Ok ==> post_store == pre_store.push(
        new_position(owner, class, amount, seed, locked, lock_period, now),
    ))
}

/// Seconds between a position's creation and `now`.
pub open spec fn unstake_elapsed(
    pre_store: Seq<StakePosition>,
    owner: u64,
    class: AssetClass,
    seed: u64,
    now: u64,
) -> u64 {
    (now - position_at(pre_store, owner, class, seed).staked_at) as u64
}

/// Whether the position's own lock period has elapsed at `now`. One
/// uniform rule for every asset class: release is allowed once the
/// elapsed time reaches the lock period the staker chose.
pub open spec fn unstake_lock_elapsed(
    pre_store: Seq<StakePosition>,
    owner: u64,
    class: AssetClass,
    seed: u64,
    now: u64,
) -> bool {
    now - position_at(pre_store, owner, class, seed).staked_at >= position_at(
        pre_store,
        owner,
        class,
        seed,
    ).lock_period
}

/// Whether computing the position's accrued reward overflows 64 bits.
pub open spec fn unstake_reward_overflows(
    pre_store: Seq<StakePosition>,
    config: StateConfig,
    owner: u64,
    class: AssetClass,
    seed: u64,
    now: u64,
) -> bool {
    accrue_overflows(
        spec_rate_for(class, config),
        unstake_elapsed(pre_store, owner, class, seed, now),
        position_at(pre_store, owner, class, seed).locked,
        config.annual_percentage_rate,
    )
}

/// The reward a successful unstake of the position mints, as an unbounded
/// integer.
pub open spec fn spec_unstake_reward(
    pre_store: Seq<StakePosition>,
    config: StateConfig,
    owner: u64,
    class: AssetClass,
    seed: u64,
    now: u64,
) -> int {
    spec_accrue(
        spec_rate_for(class, config),
        unstake_elapsed(pre_store, owner, class, seed, now),
        position_at(pre_store, owner, class, seed).locked,
        config.annual_percentage_rate,
    )
}

/// Whether an unstake request passes every check and will be applied.
pub open spec fn unstake_accepted(
    pre_store: Seq<StakePosition>,
    config: StateConfig,
    user: UserAccount,
    caller: u64,
    owner: u64,
    class: AssetClass,
    seed: u64,
    now: u64,
) -> bool {
    &&& contains_key(pre_store, owner, class, seed)
    &&& caller == position_at(pre_store, owner, class, seed).owner
    &&& unstake_lock_elapsed(pre_store, owner, class, seed, now)
    &&& !unstake_reward_overflows(pre_store, config, owner, class, seed, now)
    &&& position_at(pre_store, owner, class, seed).amount <= user.staked_amount(class)
    &&& user.points + spec_unstake_reward(pre_store, config, owner, class, seed, now) <= u64::MAX
}

/// Everything `unstake` may do, relating the stores and the user account
/// before and after the call to the request and the outcome `r`.
///
/// A failed call leaves both untouched. The errors come in validation
/// order: no position under the key, a caller who is not the owner, a
/// lock period not yet elapsed, then the checked-arithmetic failures of
/// the release (an overflowing reward, an aggregate smaller than the
/// deposit, an overflowing points credit). A successful call removes the
/// position, lowers the per-class aggregate by the deposit, credits the
/// accrued reward to the user's points, and reports the amount whose
/// release from custody, and the reward whose minting, the external
/// ledger is now authorized to perform.
pub open spec fn unstake_contract(
    pre_store: Seq<StakePosition>,
    post_store: Seq<StakePosition>,
    pre_user: UserAccount,
    post_user: UserAccount,
    config: StateConfig,
    caller: u64,
    owner: u64,
    class: AssetClass,
    seed: u64,
    now: u64,
    r: Result<Unstaked, ErrorCode>,
) -> bool {
    &&& (r is Err ==> post_store == pre_store && post_user == pre_user)
    &&& (r == Err::<Unstaked, ErrorCode>(ErrorCode::RecordNotFound) <==> !contains_key(
        pre_store,
        owner,
        class,
        seed,
    ))
    &&& (contains_key(pre_store, owner, class, seed) ==> (r == Err::<Unstaked, ErrorCode>(
        ErrorCode::Unauthorized,
    ) <==> caller != position_at(pre_store, owner, class, seed).owner))
    &&& (contains_key(pre_store, owner, class, seed) && caller == position_at(
        pre_store,
        owner,
        class,
        seed,
    ).owner ==> (r == Err::<Unstaked, ErrorCode>(ErrorCode::LockPeriodNotElapsed)
        <==> !unstake_lock_elapsed(pre_store, owner, class, seed, now)))
    &&& (contains_key(pre_store, owner, class, seed) && caller == position_at(
        pre_store,
        owner,
        class,
        seed,
    ).owner && unstake_lock_elapsed(pre_store, owner, class, seed, now) ==> (r == Err::<
        Unstaked,
        ErrorCode,
    >(ErrorCode::Overflow) <==> unstake_reward_overflows(pre_store, config, owner, class, seed, now)
        || (position_at(pre_store, owner, class, seed).amount <= pre_user.staked_amount(class)
        && pre_user.points + spec_unstake_reward(pre_store, config, owner, class, seed, now)
        > u64::MAX)))
    &&& (contains_key(pre_store, owner, class, seed) && caller == position_at(
        pre_store,
        owner,
        class,
        seed,
    ).owner && unstake_lock_elapsed(pre_store, owner, class, seed, now)
        && !unstake_reward_overflows(pre_store, config, owner, class, seed, now) ==> (r == Err::<
        Unstaked,
        ErrorCode,
    >(ErrorCode::Underflow) <==> position_at(pre_store, owner, class, seed).amount
        > pre_user.staked_amount(class)))
    &&& (r is Ok <==> unstake_accepted(pre_store, config, pre_user, caller, owner, class, seed, now))
    &&& (r matches Ok(u) ==> u.amount == position_at(pre_store, owner, class, seed).amount
        && u.reward == spec_unstake_reward(pre_store, config, owner, class, seed, now))
    &&& (r is Ok ==> post_user == pre_user.with_staked_amount(
        class,
        (pre_user.staked_amount(class) - position_at(pre_store, owner, class, seed).amount) as u64,
    ).with_points(
        (pre_user.points + spec_unstake_reward(pre_store, config, owner, class, seed, now)) as u64,
    ))
    &&& (r is Ok ==> post_store == pre_store.remove(index_of_key(pre_store, owner, class, seed))
        && !contains_key(post_store, owner, class, seed))
}

/// Whether no recorded position is stamped after `now`: what a monotonic
/// clock guarantees of any timestamp it hands out after the stakes were
/// recorded.
pub open spec fn all_staked_at_or_before(s: Seq<StakePosition>, now: u64) -> bool {
    forall|i: int| 0 <= i < s.len() ==> (#[trigger] s[i]).staked_at <= now
}

/// Orchestrator of the staking core: validates each request in full,
/// computes the reward, and only then updates the user's aggregates and
/// the position store, so that every failure leaves all state untouched.
/// Custody itself belongs to the external ledger collaborator, which acts
/// on the amounts a successful call returns.
pub struct StakingService {
    pub positions: PositionStore,
}

impl StakingService {
    pub open spec fn wf(self) -> bool {
        keys_unique(self.positions@)
    }

    /// A service with no open positions.
    pub fn new() -> (s: StakingService)
        ensures
            s.positions@ == Seq::<StakePosition>::empty(),
            s.wf(),
    {
        StakingService { positions: PositionStore::new() }
    }

    /// Opens a stake position of `amount` in `class` for `owner` under
    /// `seed`, crediting the join bonus, which a successful call returns.
    /// Validation precedes every mutation; see `stake_contract`.
    pub fn stake(
        &mut self,
        config: &StateConfig,
        user: &mut UserAccount,
        owner: u64,
        class: AssetClass,
        amount: u64,
        seed: u64,
        locked: bool,
        lock_period: u64,
        now: u64,
    ) -> (r: Result<u64, ErrorCode>)
        requires
            old(self).wf(),
        ensures
            final(self).wf(),
            stake_contract(
                old(self).positions@,
                final(self).positions@,
                *old(user),
                *final(user),
                *config,
                owner,
                class,
                amount,
                seed,
                locked,
                lock_period,
                now,
                r,
            ),
    {
        if lock_period < config.min_freeze_period {
            return Err(ErrorCode::InvalidLockPeriod);
        }
        let bonus = match join_bonus(class, amount, config) {
            Ok(v) => v,
            Err(e) => {
                return Err(e);
            },
        };
        if user.points > u64::MAX - bonus {
            return Err(ErrorCode::Overflow);
        }
        if user.staked_amount_of(class) > u64::MAX - amount {
            return Err(ErrorCode::Overflow);
        }
        if self.positions.lookup(owner, class, seed).is_some() {
            return Err(ErrorCode::DuplicatePosition);
        }
        // every possible failure is ruled out above, so the checked
        // updates below cannot fail and the operation applies in full
        let _ = user.add_points(bonus);
        let _ = user.increment(class, amount);
        let _ = self.positions.create(
            StakePosition {
                owner,
                asset_class: class,
                seed,
                amount,
                staked_at: now,
                lock_period,
                locked,
            },
        );
        Ok(bonus)
    }

    /// Closes the position of `(owner, class, seed)` for `caller`,
    /// releasing the deposit and minting the accrued reward once the lock
    /// period has elapsed. Validation precedes every mutation; see
    /// `unstake_contract`.
    pub fn unstake(
        &mut self,
        config: &StateConfig,
        user: &mut UserAccount,
        caller: u64,
        owner: u64,
        class: AssetClass,
        seed: u64,
        now: u64,
    ) -> (r: Result<Unstaked, ErrorCode>)
        requires
            old(self).wf(),
            all_staked_at_or_before(old(self).positions@, now),
        ensures
            final(self).wf(),
            unstake_contract(
                old(self).positions@,
                final(self).positions@,
                *old(user),
                *final(user),
                *config,
                caller,
                owner,
                class,
                seed,
                now,
                r,
            ),
    {
        let i = match self.positions.lookup(owner, class, seed) {
            Some(i) => i,
            None => {
                return Err(ErrorCode::RecordNotFound);
            },
        };
        let p = self.positions.get(i);
        proof {
            crate::position::lemma_index_of_key_unique(
                self.positions@,
                owner,
                class,
                seed,
                i as int,
            );
            assert(p.staked_at <= now);
        }
        if caller != p.owner {
            return Err(ErrorCode::Unauthorized);
        }
        let elapsed = now - p.staked_at;
        if elapsed < p.lock_period {
            return Err(ErrorCode::LockPeriodNotElapsed);
        }
        let rate = rate_for(class, config);
        let reward = match accrue(rate, elapsed, p.locked, config.annual_percentage_rate) {
            Ok(v) => v,
            Err(e) => {
                return Err(e);
            },
        };
        if p.amount > user.staked_amount_of(class) {
            return Err(ErrorCode::Underflow);
        }
        if user.points > u64::MAX - reward {
            return Err(ErrorCode::Overflow);
        }
        // every possible failure is ruled out above, so the checked
        // updates below cannot fail and the operation applies in full
        let _ = user.decrement(class, p.amount);
        let _ = user.add_points(reward);
        let _ = self.positions.close(owner, class, seed);
        Ok(Unstaked { amount: p.amount, reward })
    }

    /// Stakes `amount` of the native coin.
    pub fn stake_sol(
        &mut self,
        config: &StateConfig,
        user: &mut UserAccount,
        owner: u64,
        seed: u64,
        amount: u64,
        locked: bool,
        lock_period: u64,
        now: u64,
    ) -> (r: Result<u64, ErrorCode>)
        requires
            old(self).wf(),
        ensures
            final(self).wf(),
            stake_contract(
                old(self).positions@,
                final(self).positions@,
                *old(user),
                *final(user),
                *config,
                owner,
                AssetClass::Native,
                amount,
                seed,
                locked,
                lock_period,
                now,
                r,
            ),
    {
        self.stake(config, user, owner, AssetClass::Native, amount, seed, locked, lock_period, now)
    }

    /// Stakes `amount` of the fungible token issued by `mint`.
    pub fn stake_spl(
        &mut self,
        config: &StateConfig,
        user: &mut UserAccount,
        owner: u64,
        mint: u64,
        seed: u64,
        amount: u64,
        locked: bool,
        lock_period: u64,
        now: u64,
    ) -> (r: Result<u64, ErrorCode>)
        requires
            old(self).wf(),
        ensures
            final(self).wf(),
            stake_contract(
                old(self).positions@,
                final(self).positions@,
                *old(user),
                *final(user),
                *config,
                owner,
                AssetClass::Fungible { mint },
                amount,
                seed,
                locked,
                lock_period,
                now,
                r,
            ),
    {
        self.stake(
            config,
            user,
            owner,
            AssetClass::Fungible { mint },
            amount,
            seed,
            locked,
            lock_period,
            now,
        )
    }

    /// Stakes the non-fungible collectible issued by `mint`; a
    /// collectible deposit always has amount 1.
    pub fn stake_nft(
        &mut self,
        config: &StateConfig,
        user: &mut UserAccount,
        owner: u64,
        mint: u64,
        seed: u64,
        locked: bool,
        lock_period: u64,
        now: u64,
    ) -> (r: Result<u64, ErrorCode>)
        requires
            old(self).wf(),
        ensures
            final(self).wf(),
            stake_contract(
                old(self).positions@,
                final(self).positions@,
                *old(user),
                *final(user),
                *config,
                owner,
                AssetClass::NonFungible { mint },
                1u64,
                seed,
                locked,
                lock_period,
                now,
                r,
            ),
    {
        self.stake(
            config,
            user,
            owner,
            AssetClass::NonFungible { mint },
            1,
            seed,
            locked,
            lock_period,
            now,
        )
    }

    /// Releases a native-coin position.
    pub fn unstake_sol(
        &mut self,
        config: &StateConfig,
        user: &mut UserAccount,
        caller: u64,
        owner: u64,
        seed: u64,
        now: u64,
    ) -> (r: Result<Unstaked, ErrorCode>)
        requires
            old(self).wf(),
            all_staked_at_or_before(old(self).positions@, now),
        ensures
            final(self).wf(),
            unstake_contract(
                old(self).positions@,
                final(self).positions@,
                *old(user),
                *final(user),
                *config,
                caller,
                owner,
                AssetClass::Native,
                seed,
                now,
                r,
            ),
    {
        self.unstake(config, user, caller, owner, AssetClass::Native, seed, now)
    }

    /// Releases a fungible-token position of `mint`.
    pub fn unstake_spl(
        &mut self,
        config: &StateConfig,
        user: &mut UserAccount,
        caller: u64,
        owner: u64,
        mint: u64,
        seed: u64,
        now: u64,
    ) -> (r: Result<Unstaked, ErrorCode>)
        requires
            old(self).wf(),
            all_staked_at_or_before(old(self).positions@, now),
        ensures
            final(self).wf(),
            unstake_contract(
                old(self).positions@,
                final(self).positions@,
                *old(user),
                *final(user),
                *config,
                caller,
                owner,
                AssetClass::Fungible { mint },
                seed,
                now,
                r,
            ),
    {
        self.unstake(config, user, caller, owner, AssetClass::Fungible { mint }, seed, now)
    }

    /// Releases a non-fungible position of `mint`; the release also
    /// authorizes the ledger to thaw the collectible's transfer
    /// delegation.
    pub fn unstake_nft(
        &mut self,
        config: &StateConfig,
        user: &mut UserAccount,
        caller: u64,
        owner: u64,
        mint: u64,
        seed: u64,
        now: u64,
    ) -> (r: Result<Unstaked, ErrorCode>)
        requires
            old(self).wf(),
            all_staked_at_or_before(old(self).positions@, now),
        ensures
            final(self).wf(),
            unstake_contract(
                old(self).positions@,
                final(self).positions@,
                *old(user),
                *final(user),
                *config,
                caller,
                owner,
                AssetClass::NonFungible { mint },
                seed,
                now,
                r,
            ),
    {
        self.unstake(config, user, caller, owner, AssetClass::NonFungible { mint }, seed, now)
    }
}

/// Law: a stake is recorded only with a lock period at or above the
/// configured minimum; any shorter request fails `InvalidLockPeriod` and
/// changes nothing.
pub proof fn lemma_stake_enforces_min_lock(
    pre_store: Seq<StakePosition>,
    post_store: Seq<StakePosition>,
    pre_user: UserAccount,
    post_user: UserAccount,
    config: StateConfig,
    owner: u64,
    class: AssetClass,
    amount: u64,
    seed: u64,
    locked: bool,
    lock_period: u64,
    now: u64,
    r: Result<u64, ErrorCode>,
)
    requires
        stake_contract(
            pre_store,
            post_store,
            pre_user,
            post_user,
            config,
            owner,
            class,
            amount,
            seed,
            locked,
            lock_period,
            now,
            r,
        ),
    ensures
        lock_period < config.min_freeze_period ==> r == Err::<u64, ErrorCode>(
            ErrorCode::InvalidLockPeriod,
        ) && post_store == pre_store && post_user == pre_user,
        r is Ok ==> lock_period >= config.min_freeze_period,
{
}

/// Law: an unstake attempt before the position's lock period has elapsed
/// fails `LockPeriodNotElapsed` and changes nothing.
pub proof fn lemma_early_unstake_rejected(
    pre_store: Seq<StakePosition>,
    post_store: Seq<StakePosition>,
    pre_user: UserAccount,
    post_user: UserAccount,
    config: StateConfig,
    caller: u64,
    owner: u64,
    class: AssetClass,
    seed: u64,
    now: u64,
    r: Result<Unstaked, ErrorCode>,
)
    requires
        unstake_contract(
            pre_store,
            post_store,
            pre_user,
            post_user,
            config,
            caller,
            owner,
            class,
            seed,
            now,
            r,
        ),
        contains_key(pre_store, owner, class, seed),
        caller == position_at(pre_store, owner, class, seed).owner,
        !unstake_lock_elapsed(pre_store, owner, class, seed, now),
    ensures
        r == Err::<Unstaked, ErrorCode>(ErrorCode::LockPeriodNotElapsed),
        post_store == pre_store,
        post_user == pre_user,
{
}

/// Law: failure is idempotent. A stake call that returns any error leaves
/// the position store and the user account observably identical to their
/// pre-call state (the configuration is read-only throughout).
pub proof fn lemma_failed_stake_changes_nothing(
    pre_store: Seq<StakePosition>,
    post_store: Seq<StakePosition>,
    pre_user: UserAccount,
    post_user: UserAccount,
    config: StateConfig,
    owner: u64,
    class: AssetClass,
    amount: u64,
    seed: u64,
    locked: bool,
    lock_period: u64,
    now: u64,
    r: Result<u64, ErrorCode>,
)
    requires
        stake_contract(
            pre_store,
            post_store,
            pre_user,
            post_user,
            config,
            owner,
            class,
            amount,
            seed,
            locked,
            lock_period,
            now,
            r,
        ),
        r is Err,
    ensures
        post_store == pre_store,
        post_user == pre_user,
{
}

/// Law: failure is idempotent. An unstake call that returns any error
/// leaves the position store and the user account observably identical to
/// their pre-call state (the configuration is read-only throughout).
pub proof fn lemma_failed_unstake_changes_nothing(
    pre_store: Seq<StakePosition>,
    post_store: Seq<StakePosition>,
    pre_user: UserAccount,
    post_user: UserAccount,
    config: StateConfig,
    caller: u64,
    owner: u64,
    class: AssetClass,
    seed: u64,
    now: u64,
    r: Result<Unstaked, ErrorCode>,
)
    requires
        unstake_contract(
            pre_store,
            post_store,
            pre_user,
            post_user,
            config,
            caller,
            owner,
            class,
            seed,
            now,
            r,
        ),
        r is Err,
    ensures
        post_store == pre_store,
        post_user == pre_user,
{
}

/// Law: a stake followed by the unstake of the same position credits the
/// join bonus and the time-accrued reward exactly once each, releases
/// exactly the deposited amount, restores the per-class aggregate, and
/// returns the store to its pre-stake contents: no double-crediting and
/// no residue.
pub proof fn lemma_stake_unstake_round_trip(
    s0: Seq<StakePosition>,
    s1: Seq<StakePosition>,
    s2: Seq<StakePosition>,
    u0: UserAccount,
    u1: UserAccount,
    u2: UserAccount,
    config: StateConfig,
    owner: u64,
    class: AssetClass,
    amount: u64,
    seed: u64,
    locked: bool,
    lock_period: u64,
    t0: u64,
    t1: u64,
    bonus: u64,
    out: Unstaked,
)
    requires
        stake_contract(
            s0,
            s1,
            u0,
            u1,
            config,
            owner,
            class,
            amount,
            seed,
            locked,
            lock_period,
            t0,
            Ok(bonus),
        ),
        unstake_contract(s1, s2, u1, u2, config, owner, owner, class, seed, t1, Ok(out)),
    ensures
        out.amount == amount,
        out.reward == spec_accrue(
            spec_rate_for(class, config),
            (t1 - t0) as u64,
            locked,
            config.annual_percentage_rate,
        ),
        u2.staked_amount(class) == u0.staked_amount(class),
        u2.points == u0.points + bonus + out.reward,
        s2 == s0,
{
    let p = new_position(owner, class, amount, seed, locked, lock_period, t0);
    assert(s1 == s0.push(p));
    assert(key_is(s1[s0.len() as int], owner, class, seed));
    assert(contains_key(s1, owner, class, seed));
    let k = index_of_key(s1, owner, class, seed);
    assert(0 <= k < s1.len() && key_is(s1[k], owner, class, seed));
    if k < s0.len() {
        assert(key_is(s0[k], owner, class, seed));
        assert(contains_key(s0, owner, class, seed));
        assert(false);
    }
    assert(position_at(s1, owner, class, seed) == p);
    assert forall|i: int| 0 <= i < s0.len() implies s1.remove(k)[i] == s0[i] by {
        assert(s1[i] == s0[i]);
    }
    assert(s2 =~= s0);
}

} // verus!
