use vstd::prelude::*;

use crate::config::StateConfig;
use crate::errors::ErrorCode;
use crate::position::AssetClass;

verus! {

/// The flat join bonus for a native-coin stake, in reward-token base units.
///
/// Deliberate policy: a native-coin deposit earns a fixed bonus independent
/// of its amount, while a fungible-token deposit earns proportionally to
/// its amount and a collectible earns the configured flat rate.
pub const NATIVE_STAKE_BONUS: u64 = 100_000_000;

/// Basis points in a whole: an annual percentage rate of 10000 is 100%.
pub const BPS_DENOMINATOR: u64 = 10_000;

/// The reward credited immediately at stake time, before any time-based
/// accrual, as an unbounded integer.
pub open spec fn spec_join_bonus(class: AssetClass, amount: u64, config: StateConfig) -> int {
    match class {
        AssetClass::Native => NATIVE_STAKE_BONUS as int,
        AssetClass::Fungible { .. } => config.points_per_spl_stake as int * amount as int,
        AssetClass::NonFungible { .. } => config.points_per_nft_stake as int,
    }
}

/// The time-based accrual before the locked-tier adjustment, as an
/// unbounded integer: the per-class point rate times the elapsed seconds.
pub open spec fn spec_base_accrual(points_rate: u8, elapsed: u64) -> int {
    points_rate as int * elapsed as int
}

/// The reward owed at unstake time, as an unbounded integer.
///
/// Deliberate policy, applied uniformly to every asset class: the locked
/// tier scales the base accrual by the annual percentage rate in basis
/// points, with integer division truncating toward zero.
pub open spec fn spec_accrue(points_rate: u8, elapsed: u64, locked: bool, apr_bps: u16) -> int {
    if locked {
        spec_base_accrual(points_rate, elapsed) * apr_bps as int / BPS_DENOMINATOR as int
    } else {
        spec_base_accrual(points_rate, elapsed)
    }
}

/// Whether computing the accrued reward in 64-bit checked arithmetic
/// overflows: either at the base multiplication, or, for the locked tier,
/// at the multiplication by the rate in basis points.
pub open spec fn accrue_overflows(
    points_rate: u8,
    elapsed: u64,
    locked: bool,
    apr_bps: u16,
) -> bool {
    spec_base_accrual(points_rate, elapsed) > u64::MAX || (locked && spec_base_accrual(
        points_rate,
        elapsed,
    ) * apr_bps as int > u64::MAX)
}

/// Everything `join_bonus` may return: the exact bonus when it fits in 64
/// bits, `Overflow` otherwise. The outcome is a function of the arguments
/// alone.
pub open spec fn join_bonus_contract(
    class: AssetClass,
    amount: u64,
    config: StateConfig,
    r: Result<u64, ErrorCode>,
) -> bool {
    &&& r is Ok <==> spec_join_bonus(class, amount, config) <= u64::MAX
    &&& (r matches Ok(v) ==> v == spec_join_bonus(class, amount, config))
    &&& (r is Err ==> r == Err::<u64, ErrorCode>(ErrorCode::Overflow))
}

/// Everything `accrue` may return: the exact accrued reward when every
/// checked step fits in 64 bits, `Overflow` otherwise. The outcome is a
/// function of the arguments alone.
pub open spec fn accrue_contract(
    points_rate: u8,
    elapsed: u64,
    locked: bool,
    apr_bps: u16,
    r: Result<u64, ErrorCode>,
) -> bool {
    &&& r is Ok <==> !accrue_overflows(points_rate, elapsed, locked, apr_bps)
    &&& (r matches Ok(v) ==> v == spec_accrue(points_rate, elapsed, locked, apr_bps))
    &&& (r is Err ==> r == Err::<u64, ErrorCode>(ErrorCode::Overflow))
}

/// The configured point rate that governs `class`.
pub open spec fn spec_rate_for(class: AssetClass, config: StateConfig) -> u8 {
    match class {
        AssetClass::Native => config.points_per_sol_stake,
        AssetClass::Fungible { .. } => config.points_per_spl_stake,
        AssetClass::NonFungible { .. } => config.points_per_nft_stake,
    }
}

/// The configured point rate that governs `class`, as executable code.
pub fn rate_for(class: AssetClass, config: &StateConfig) -> (rate: u8)
    ensures
        rate == spec_rate_for(class, *config),
{
    match class {
        AssetClass::Native => config.points_per_sol_stake,
        AssetClass::Fungible { .. } => config.points_per_spl_stake,
        AssetClass::NonFungible { .. } => config.points_per_nft_stake,
    }
}

/// The reward credited immediately at stake time: proportional to the
/// amount for a fungible token, flat for the native coin and for a
/// collectible. Pure and deterministic; fails `Overflow` rather than wrap.
pub fn join_bonus(class: AssetClass, amount: u64, config: &StateConfig) -> (r: Result<
    u64,
    ErrorCode,
>)
    ensures
        join_bonus_contract(class, amount, *config, r),
{
    match class {
        AssetClass::Native => Ok(NATIVE_STAKE_BONUS),
        AssetClass::Fungible { .. } => {
            match (config.points_per_spl_stake as u64).checked_mul(amount) {
                Some(v) => Ok(v),
                None => Err(ErrorCode::Overflow),
            }
        },
        AssetClass::NonFungible { .. } => Ok(config.points_per_nft_stake as u64),
    }
}

/// The reward owed after `elapsed` seconds: the point rate times the
/// elapsed time, scaled by the annual percentage rate when the position
/// opted into the locked tier. Pure and deterministic; fails `Overflow`
/// rather than wrap.
pub fn accrue(points_rate: u8, elapsed: u64, locked: bool, apr_bps: u16) -> (r: Result<
    u64,
    ErrorCode,
>)
    ensures
        accrue_contract(points_rate, elapsed, locked, apr_bps, r),
{
    let base = match (points_rate as u64).checked_mul(elapsed) {
        Some(v) => v,
        None => {
            return Err(ErrorCode::Overflow);
        },
    };
    if locked {
        match base.checked_mul(apr_bps as u64) {
            Some(product) => Ok(product / BPS_DENOMINATOR),
            None => Err(ErrorCode::Overflow),
        }
    } else {
        Ok(base)
    }
}

/// Law: reward determinism. Any two outcomes the join-bonus contract
/// admits for the same `(asset class, amount, config)` are equal, down to
/// the error value.
pub proof fn lemma_join_bonus_deterministic(
    class: AssetClass,
    amount: u64,
    config: StateConfig,
    r1: Result<u64, ErrorCode>,
    r2: Result<u64, ErrorCode>,
)
    requires
        join_bonus_contract(class, amount, config, r1),
        join_bonus_contract(class, amount, config, r2),
    ensures
        r1 == r2,
{
}

/// Law: reward determinism. Any two outcomes the accrual contract admits
/// for the same `(rate, elapsed, locked, annual percentage rate)` are
/// equal, down to the error value.
pub proof fn lemma_accrue_deterministic(
    points_rate: u8,
    elapsed: u64,
    locked: bool,
    apr_bps: u16,
    r1: Result<u64, ErrorCode>,
    r2: Result<u64, ErrorCode>,
)
    requires
        accrue_contract(points_rate, elapsed, locked, apr_bps, r1),
        accrue_contract(points_rate, elapsed, locked, apr_bps, r2),
    ensures
        r1 == r2,
{
}

} // verus!
