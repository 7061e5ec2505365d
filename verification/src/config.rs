use vstd::prelude::*;

use crate::errors::ErrorCode;

verus! {

/// Immutable-after-init global parameters of the staking core.
///
/// The three point rates are small per-class multipliers, the minimum freeze
/// period is a duration in seconds, and the annual percentage rate is in
/// basis points (10000 = 100%).
#[derive(Clone, Copy, Debug, PartialEq, Eq, Structural)]
pub struct StateConfig {
    pub points_per_nft_stake: u8,
    pub points_per_sol_stake: u8,
    pub points_per_spl_stake: u8,
    pub min_freeze_period: u64,
    pub annual_percentage_rate: u16,
}

/// Holder of the singleton [`StateConfig`].
///
/// Created empty with the administrator's identity; `initialize_config` may
/// fill it exactly once, and only when called by that administrator. There
/// is no update operation: parameter changes are an explicit non-goal.
pub struct ConfigStore {
    admin: u64,
    state: Option<StateConfig>,
}

impl ConfigStore {
    /// The administrator identity fixed at creation.
    pub closed spec fn spec_admin(self) -> u64 {
        self.admin
    }

    /// The stored parameters, if `initialize_config` has succeeded.
    pub closed spec fn spec_state(self) -> Option<StateConfig> {
        self.state
    }

    pub open spec fn is_initialized(self) -> bool {
        self.spec_state() is Some
    }

    /// A fresh, uninitialized store gated to `admin`.
    pub fn new(admin: u64) -> (store: ConfigStore)
        ensures
            store.spec_admin() == admin,
            !store.is_initialized(),
    {
        ConfigStore { admin, state: None }
    }

    /// One-time administrative bootstrap of the global parameters.
    ///
    /// Fails `Unauthorized` unless `caller` is the administrator, and
    /// `AlreadyInitialized` on any call after the first success; a failed
    /// call changes nothing.
    pub fn initialize_config(
        &mut self,
        caller: u64,
        points_per_nft_stake: u8,
        points_per_sol_stake: u8,
        points_per_spl_stake: u8,
        min_freeze_period: u64,
        annual_percentage_rate: u16,
    ) -> (r: Result<(), ErrorCode>)
        ensures
            final(self).spec_admin() == old(self).spec_admin(),
            r == Err::<(), ErrorCode>(ErrorCode::Unauthorized) <==> caller != old(self).spec_admin(),
            caller == old(self).spec_admin() ==> (
                r == Err::<(), ErrorCode>(ErrorCode::AlreadyInitialized) <==> old(self).is_initialized()
            ),
            r is Err ==> final(self).spec_state() == old(self).spec_state(),
            r is Ok <==> caller == old(self).spec_admin() && !old(self).is_initialized(),
            r is Ok ==> final(self).spec_state() == Some(StateConfig {
                points_per_nft_stake,
                points_per_sol_stake,
                points_per_spl_stake,
                min_freeze_period,
                annual_percentage_rate,
            }),
    {
        if caller != self.admin {
            return Err(ErrorCode::Unauthorized);
        }
        if self.state.is_some() {
            return Err(ErrorCode::AlreadyInitialized);
        }
        self.state = Some(StateConfig {
            points_per_nft_stake,
            points_per_sol_stake,
            points_per_spl_stake,
            min_freeze_period,
            annual_percentage_rate,
        });
        Ok(())
    }

    /// An immutable snapshot of the parameters, or `None` before
    /// initialization.
    pub fn get(&self) -> (c: Option<StateConfig>)
        ensures
            c == self.spec_state(),
    {
        self.state
    }
}

} // verus!
