use vstd::prelude::*;

use crate::errors::ErrorCode;
use crate::position::AssetClass;

verus! {

/// Per-user aggregate counters: accumulated reward points and the staked
/// total of each asset class. All fields are unsigned and every change goes
/// through a checked operation, so no counter can ever go negative or wrap.
#[derive(Clone, Copy, Debug, PartialEq, Eq, Structural)]
pub struct UserAccount {
    pub points: u64,
    pub nft_staked_amount: u64,
    pub spl_staked_amount: u64,
    pub sol_staked_amount: u64,
}

/// A fresh account with every counter at zero, created on a user's first
/// interaction.
pub fn initialize_user() -> (user: UserAccount)
    ensures
        user == (UserAccount {
            points: 0,
            nft_staked_amount: 0,
            spl_staked_amount: 0,
            sol_staked_amount: 0,
        }),
{
    UserAccount { points: 0, nft_staked_amount: 0, spl_staked_amount: 0, sol_staked_amount: 0 }
}

impl UserAccount {
    /// The staked total recorded for `class`.
    pub open spec fn staked_amount(self, class: AssetClass) -> u64 {
        match class {
            AssetClass::Native => self.sol_staked_amount,
            AssetClass::Fungible { .. } => self.spl_staked_amount,
            AssetClass::NonFungible { .. } => self.nft_staked_amount,
        }
    }

    /// This account with the counter of `class` replaced by `v`.
    pub open spec fn with_staked_amount(self, class: AssetClass, v: u64) -> UserAccount {
        match class {
            AssetClass::Native => UserAccount { sol_staked_amount: v, ..self },
            AssetClass::Fungible { .. } => UserAccount { spl_staked_amount: v, ..self },
            AssetClass::NonFungible { .. } => UserAccount { nft_staked_amount: v, ..self },
        }
    }

    /// This account with the points counter replaced by `v`.
    pub open spec fn with_points(self, v: u64) -> UserAccount {
        UserAccount { points: v, ..self }
    }

    /// The staked total recorded for `class`, as executable code.
    pub fn staked_amount_of(&self, class: AssetClass) -> (n: u64)
        ensures
            n == self.staked_amount(class),
    {
        match class {
            AssetClass::Native => self.sol_staked_amount,
            AssetClass::Fungible { .. } => self.spl_staked_amount,
            AssetClass::NonFungible { .. } => self.nft_staked_amount,
        }
    }

    /// Checked credit of reward points. Everything `add_points` may do:
    /// on success the points counter grows by exactly `amount`; on
    /// overflow the call fails and the account is untouched.
    pub open spec fn add_points_contract(
        pre: UserAccount,
        post: UserAccount,
        amount: u64,
        r: Result<(), ErrorCode>,
    ) -> bool {
        &&& r is Ok <==> pre.points + amount <= u64::MAX
        &&& (r is Ok ==> post == pre.with_points((pre.points + amount) as u64))
        &&& (r is Err ==> post == pre && r == Err::<(), ErrorCode>(ErrorCode::Overflow))
    }

    /// Checked increase of the staked total of `class`. On overflow the
    /// call fails and the account is untouched.
    pub open spec fn increment_contract(
        pre: UserAccount,
        post: UserAccount,
        class: AssetClass,
        amount: u64,
        r: Result<(), ErrorCode>,
    ) -> bool {
        &&& r is Ok <==> pre.staked_amount(class) + amount <= u64::MAX
        &&& (r is Ok ==> post == pre.with_staked_amount(
            class,
            (pre.staked_amount(class) + amount) as u64,
        ))
        &&& (r is Err ==> post == pre && r == Err::<(), ErrorCode>(ErrorCode::Overflow))
    }

    /// Checked decrease of the staked total of `class`. A decrement
    /// exceeding the current value fails `Underflow` and the account is
    /// untouched: the counter never wraps and never clamps.
    pub open spec fn decrement_contract(
        pre: UserAccount,
        post: UserAccount,
        class: AssetClass,
        amount: u64,
        r: Result<(), ErrorCode>,
    ) -> bool {
        &&& r is Ok <==> amount <= pre.staked_amount(class)
        &&& (r is Ok ==> post == pre.with_staked_amount(
            class,
            (pre.staked_amount(class) - amount) as u64,
        ))
        &&& (r is Err ==> post == pre && r == Err::<(), ErrorCode>(ErrorCode::Underflow))
    }

    /// Credits `amount` reward points; fails `Overflow` rather than wrap.
    pub fn add_points(&mut self, amount: u64) -> (r: Result<(), ErrorCode>)
        ensures
            UserAccount::add_points_contract(*old(self), *final(self), amount, r),
    {
        match self.points.checked_add(amount) {
            Some(p) => {
                self.points = p;
                Ok(())
            },
            None => Err(ErrorCode::Overflow),
        }
    }

    /// Raises the staked total of `class` by `amount`; fails `Overflow`
    /// rather than wrap.
    pub fn increment(&mut self, class: AssetClass, amount: u64) -> (r: Result<(), ErrorCode>)
        ensures
            UserAccount::increment_contract(*old(self), *final(self), class, amount, r),
    {
        match class {
            AssetClass::Native => {
                match self.sol_staked_amount.checked_add(amount) {
                    Some(v) => {
                        self.sol_staked_amount = v;
                        Ok(())
                    },
                    None => Err(ErrorCode::Overflow),
                }
            },
            AssetClass::Fungible { .. } => {
                match self.spl_staked_amount.checked_add(amount) {
                    Some(v) => {
                        self.spl_staked_amount = v;
                        Ok(())
                    },
                    None => Err(ErrorCode::Overflow),
                }
            },
            AssetClass::NonFungible { .. } => {
                match self.nft_staked_amount.checked_add(amount) {
                    Some(v) => {
                        self.nft_staked_amount = v;
                        Ok(())
                    },
                    None => Err(ErrorCode::Overflow),
                }
            },
        }
    }

    /// Lowers the staked total of `class` by `amount`; fails `Underflow`
    /// when `amount` exceeds the current value.
    pub fn decrement(&mut self, class: AssetClass, amount: u64) -> (r: Result<(), ErrorCode>)
        ensures
            UserAccount::decrement_contract(*old(self), *final(self), class, amount, r),
    {
        match class {
            AssetClass::Native => {
                match self.sol_staked_amount.checked_sub(amount) {
                    Some(v) => {
                        self.sol_staked_amount = v;
                        Ok(())
                    },
                    None => Err(ErrorCode::Underflow),
                }
            },
            AssetClass::Fungible { .. } => {
                match self.spl_staked_amount.checked_sub(amount) {
                    Some(v) => {
                        self.spl_staked_amount = v;
                        Ok(())
                    },
                    None => Err(ErrorCode::Underflow),
                }
            },
            AssetClass::NonFungible { .. } => {
                match self.nft_staked_amount.checked_sub(amount) {
                    Some(v) => {
                        self.nft_staked_amount = v;
                        Ok(())
                    },
                    None => Err(ErrorCode::Underflow),
                }
            },
        }
    }
}

/// Law: per-asset counters cannot go negative. A decrement exceeding the
/// current value fails `Underflow` and leaves the account exactly as it
/// was; a successful decrement never takes the (unsigned) counter below
/// zero.
pub proof fn lemma_decrement_never_negative(
    pre: UserAccount,
    post: UserAccount,
    class: AssetClass,
    amount: u64,
    r: Result<(), ErrorCode>,
)
    requires
        UserAccount::decrement_contract(pre, post, class, amount, r),
    ensures
        amount > pre.staked_amount(class) ==> r == Err::<(), ErrorCode>(ErrorCode::Underflow)
            && post == pre,
        r is Ok ==> post.staked_amount(class) == pre.staked_amount(class) - amount
            && post.staked_amount(class) >= 0,
{
}

} // verus!
