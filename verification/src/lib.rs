//! Staking-rewards accounting core.
//!
//! Users deposit one of three asset classes (native coin, fungible token,
//! non-fungible collectible) into named positions, earn an immediate join
//! bonus plus a time-accrued yield, and may withdraw only after their chosen
//! lock period has elapsed. Every counter update is checked arithmetic and
//! every operation is all-or-nothing: a failed call leaves the configuration,
//! the user's aggregates and the position store untouched.
//!
//! Asset custody (moving coins and tokens, minting the reward token,
//! freezing and thawing collectible transfer rights) belongs to an external
//! ledger collaborator: the service reports which custody calls a successful
//! operation authorizes, and never touches balances itself.

pub mod config;
pub mod errors;
pub mod position;
pub mod reward;
pub mod service;
pub mod user_account;
