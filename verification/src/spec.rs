//! The contract as a mathematical state machine: its state, and for every
//! operation the state it leads to or the reason it is refused.

use vstd::prelude::*;

use crate::book::book_valid;
use crate::error::CreditError;
use crate::types::{
    CreditLineView, CreditStatus, RateChangeConfig, MAX_INTEREST_RATE_BPS, MAX_RISK_SCORE,
};

verus! {

/// The whole state of the contract.
pub struct ContractView {
    /// The contract's own address; the liquidity source `init` configures.
    pub contract_address: Seq<u8>,
    /// The admin, once `init` has run.
    pub admin: Option<Seq<u8>>,
    /// The token paid out on draws and collected on repayments, if any.
    pub liquidity_token: Option<Seq<u8>>,
    /// The account that funds draws and receives repayments.
    pub liquidity_source: Option<Seq<u8>>,
    /// Limits on interest-rate changes, if configured.
    pub rate_change_config: Option<RateChangeConfig>,
    /// Set while a draw or repayment is in progress.
    pub reentrancy_locked: bool,
    /// The credit line of each borrower that has one.
    pub lines: Map<Seq<u8>, CreditLineView>,
}

/// Every stored line is valid and stored under its own borrower.
pub open spec fn state_valid(s: ContractView) -> bool {
    book_valid(s.lines)
}

/// Why `caller` may not act as admin, if it may not.
pub open spec fn admin_refusal(s: ContractView, caller: Seq<u8>) -> Option<CreditError> {
    match s.admin {
        None => Some(CreditError::AdminNotSet),
        Some(a) => if a == caller { None } else { Some(CreditError::NotAdmin) },
    }
}

/// The account that funds draws and receives repayments: the configured
/// liquidity source, else the contract itself.
pub open spec fn reserve_of(s: ContractView) -> Seq<u8> {
    match s.liquidity_source {
        Some(r) => r,
        None => s.contract_address,
    }
}

/// `s` with the line of `k` replaced by `l`.
pub open spec fn with_line(s: ContractView, k: Seq<u8>, l: CreditLineView) -> ContractView {
    ContractView { lines: s.lines.insert(k, l), ..s }
}

/// `init(admin)`: sets the admin and makes the contract its own liquidity source.
pub open spec fn init_step(s: ContractView, admin: Seq<u8>) -> ContractView {
    ContractView { admin: Some(admin), liquidity_source: Some(s.contract_address), ..s }
}

/// `set_liquidity_token(token)` by `caller`.
pub open spec fn set_token_step(s: ContractView, caller: Seq<u8>, token: Seq<u8>) -> Result<
    ContractView,
    CreditError,
> {
    match admin_refusal(s, caller) {
        Some(e) => Err(e),
        None => Ok(ContractView { liquidity_token: Some(token), ..s }),
    }
}

/// `set_liquidity_source(reserve)` by `caller`.
pub open spec fn set_source_step(s: ContractView, caller: Seq<u8>, reserve: Seq<u8>) -> Result<
    ContractView,
    CreditError,
> {
    match admin_refusal(s, caller) {
        Some(e) => Err(e),
        None => Ok(ContractView { liquidity_source: Some(reserve), ..s }),
    }
}

/// `set_rate_change_config(config)` by `caller`.
pub open spec fn set_rate_config_step(
    s: ContractView,
    caller: Seq<u8>,
    config: RateChangeConfig,
) -> Result<ContractView, CreditError> {
    match admin_refusal(s, caller) {
        Some(e) => Err(e),
        None => Ok(ContractView { rate_change_config: Some(config), ..s }),
    }
}

/// The line that `open_credit_line` creates.
pub open spec fn opened_line(borrower: Seq<u8>, credit_limit: i128, interest_rate_bps: u32, risk_score: u32) -> CreditLineView {
    CreditLineView {
        borrower,
        credit_limit,
        utilized_amount: 0,
        interest_rate_bps,
        risk_score,
        status: CreditStatus::Active,
        last_rate_update_ts: 0,
    }
}

/// Whether `b` has a line and it is Active.
pub open spec fn has_active_line(s: ContractView, b: Seq<u8>) -> bool {
    s.lines.contains_key(b) && s.lines[b].status == CreditStatus::Active
}

/// `open_credit_line(borrower, credit_limit, interest_rate_bps, risk_score)`.
pub open spec fn open_step(
    s: ContractView,
    borrower: Seq<u8>,
    credit_limit: i128,
    interest_rate_bps: u32,
    risk_score: u32,
) -> Result<ContractView, CreditError> {
    if credit_limit <= 0 {
        Err(CreditError::InvalidCreditLimit)
    } else if interest_rate_bps > MAX_INTEREST_RATE_BPS {
        Err(CreditError::InterestRateTooHigh)
    } else if risk_score > MAX_RISK_SCORE {
        Err(CreditError::RiskScoreOutOfRange)
    } else if has_active_line(s, borrower) {
        Err(CreditError::ActiveLineExists)
    } else {
        Ok(with_line(s, borrower, opened_line(borrower, credit_limit, interest_rate_bps, risk_score)))
    }
}

/// `l` with `u` as its utilized amount.
pub open spec fn with_utilized(l: CreditLineView, u: i128) -> CreditLineView {
    CreditLineView { utilized_amount: u, ..l }
}

/// `l` with status `st`.
pub open spec fn with_status(l: CreditLineView, st: CreditStatus) -> CreditLineView {
    CreditLineView { status: st, ..l }
}

/// `s` with the reentrancy guard set: a draw or repayment that succeeds
/// holds the guard until its token movement is done.
pub open spec fn guarded(s: ContractView) -> ContractView {
    ContractView { reentrancy_locked: true, ..s }
}

/// `clear_reentrancy_guard()`: releases the guard once the token movement of
/// a draw or repayment is done.
pub open spec fn clear_guard_step(s: ContractView) -> ContractView {
    ContractView { reentrancy_locked: false, ..s }
}

/// `draw_credit(borrower, amount)`, where `reserve_balance` is what the
/// liquidity source holds of the liquidity token (read only when a token is
/// configured). A draw that succeeds holds the reentrancy guard until
/// `clear_reentrancy_guard`.
pub open spec fn draw_step(
    s: ContractView,
    borrower: Seq<u8>,
    amount: i128,
    reserve_balance: i128,
) -> Result<ContractView, CreditError> {
    if s.reentrancy_locked {
        Err(CreditError::Reentrancy)
    } else if amount <= 0 {
        Err(CreditError::NonPositiveAmount)
    } else if !s.lines.contains_key(borrower) {
        Err(CreditError::CreditLineNotFound)
    } else {
        let l = s.lines[borrower];
        if l.status == CreditStatus::Closed {
            Err(CreditError::CreditLineClosed)
        } else if l.status == CreditStatus::Suspended {
            Err(CreditError::CreditLineSuspended)
        } else if l.utilized_amount + amount > i128::MAX {
            Err(CreditError::Overflow)
        } else if l.utilized_amount + amount > l.credit_limit {
            Err(CreditError::ExceedsCreditLimit)
        } else if s.liquidity_token is Some && reserve_balance < amount {
            Err(CreditError::InsufficientLiquidity)
        } else {
            Ok(guarded(with_line(s, borrower, with_utilized(l, (l.utilized_amount + amount) as i128))))
        }
    }
}

/// The part of a repayment of `amount` that is applied: never more than
/// what is owed.
pub open spec fn applied_repayment(utilized: i128, amount: i128) -> i128 {
    if amount > utilized { utilized } else { amount }
}

/// `repay_credit(borrower, amount)`, where `allowance` is what the borrower
/// allows the contract to spend of the liquidity token and `balance` what
/// the borrower holds of it (both read only when a token is configured and
/// something is applied). A repayment that succeeds holds the reentrancy
/// guard until `clear_reentrancy_guard`.
pub open spec fn repay_step(
    s: ContractView,
    borrower: Seq<u8>,
    amount: i128,
    allowance: i128,
    balance: i128,
) -> Result<ContractView, CreditError> {
    if s.reentrancy_locked {
        Err(CreditError::Reentrancy)
    } else if !s.lines.contains_key(borrower) {
        Err(CreditError::CreditLineNotFound)
    } else {
        let l = s.lines[borrower];
        let paid = applied_repayment(l.utilized_amount, amount);
        if l.status == CreditStatus::Closed {
            Err(CreditError::CreditLineClosed)
        } else if amount <= 0 {
            Err(CreditError::NonPositiveAmount)
        } else if paid > 0 && s.liquidity_token is Some && allowance < paid {
            Err(CreditError::InsufficientAllowance)
        } else if paid > 0 && s.liquidity_token is Some && balance < paid {
            Err(CreditError::InsufficientBalance)
        } else {
            Ok(guarded(with_line(s, borrower, with_utilized(l, (l.utilized_amount - paid) as i128))))
        }
    }
}

/// Why changing a rate from `old_rate`, last changed at `last_ts`, to
/// `new_rate` at time `now` is refused under `config`, if it is.
pub open spec fn rate_change_refusal(
    config: Option<RateChangeConfig>,
    old_rate: u32,
    new_rate: u32,
    last_ts: u64,
    now: u64,
) -> Option<CreditError> {
    match config {
        None => None,
        Some(c) => if new_rate == old_rate {
            None
        } else if (if new_rate > old_rate { new_rate - old_rate } else { old_rate - new_rate })
            > c.max_rate_change_bps {
            Some(CreditError::RateChangeTooLarge)
        } else if c.rate_change_min_interval > 0 && last_ts != 0 && (now < last_ts || now - last_ts
            < c.rate_change_min_interval) {
            Some(CreditError::RateChangeTooSoon)
        } else {
            None
        },
    }
}

/// The line after its risk parameters are updated at time `now`.
pub open spec fn updated_line(
    l: CreditLineView,
    credit_limit: i128,
    interest_rate_bps: u32,
    risk_score: u32,
    now: u64,
) -> CreditLineView {
    CreditLineView {
        credit_limit,
        interest_rate_bps,
        risk_score,
        last_rate_update_ts: if interest_rate_bps != l.interest_rate_bps {
            now
        } else {
            l.last_rate_update_ts
        },
        ..l
    }
}

/// `update_risk_parameters(borrower, credit_limit, interest_rate_bps,
/// risk_score)` by `caller` at time `now`.
pub open spec fn update_step(
    s: ContractView,
    caller: Seq<u8>,
    borrower: Seq<u8>,
    credit_limit: i128,
    interest_rate_bps: u32,
    risk_score: u32,
    now: u64,
) -> Result<ContractView, CreditError> {
    match admin_refusal(s, caller) {
        Some(e) => Err(e),
        None => if !s.lines.contains_key(borrower) {
            Err(CreditError::CreditLineNotFound)
        } else {
            let l = s.lines[borrower];
            if credit_limit < 0 {
                Err(CreditError::NegativeCreditLimit)
            } else if credit_limit < l.utilized_amount {
                Err(CreditError::LimitBelowUtilized)
            } else if interest_rate_bps > MAX_INTEREST_RATE_BPS {
                Err(CreditError::RateExceedsMaximum)
            } else if risk_score > MAX_RISK_SCORE {
                Err(CreditError::ScoreExceedsMaximum)
            } else {
                match rate_change_refusal(
                    s.rate_change_config,
                    l.interest_rate_bps,
                    interest_rate_bps,
                    l.last_rate_update_ts,
                    now,
                ) {
                    Some(e) => Err(e),
                    None => Ok(
                        with_line(
                            s,
                            borrower,
                            updated_line(l, credit_limit, interest_rate_bps, risk_score, now),
                        ),
                    ),
                }
            }
        },
    }
}

/// `suspend_credit_line(borrower)` by `caller`.
pub open spec fn suspend_step(s: ContractView, caller: Seq<u8>, borrower: Seq<u8>) -> Result<
    ContractView,
    CreditError,
> {
    match admin_refusal(s, caller) {
        Some(e) => Err(e),
        None => if !s.lines.contains_key(borrower) {
            Err(CreditError::CreditLineNotFound)
        } else if s.lines[borrower].status != CreditStatus::Active {
            Err(CreditError::NotActive)
        } else {
            Ok(with_line(s, borrower, with_status(s.lines[borrower], CreditStatus::Suspended)))
        },
    }
}

/// Whether `closer` may close the line `l` of `borrower`: the admin always,
/// the borrower when nothing is owed.
pub open spec fn may_close(admin: Seq<u8>, borrower: Seq<u8>, closer: Seq<u8>, l: CreditLineView) -> bool {
    closer == admin || (closer == borrower && l.utilized_amount == 0)
}

/// `close_credit_line(borrower, closer)`. A line that is already Closed
/// stays as it is.
pub open spec fn close_step(s: ContractView, borrower: Seq<u8>, closer: Seq<u8>) -> Result<
    ContractView,
    CreditError,
> {
    match s.admin {
        None => Err(CreditError::AdminNotSet),
        Some(admin) => if !s.lines.contains_key(borrower) {
            Err(CreditError::CreditLineNotFound)
        } else {
            let l = s.lines[borrower];
            if l.status == CreditStatus::Closed {
                Ok(s)
            } else if !may_close(admin, borrower, closer, l) {
                if closer == borrower {
                    Err(CreditError::UtilizationNotZero)
                } else {
                    Err(CreditError::Unauthorized)
                }
            } else {
                Ok(with_line(s, borrower, with_status(l, CreditStatus::Closed)))
            }
        },
    }
}

/// `default_credit_line(borrower)` by `caller`.
pub open spec fn default_step(s: ContractView, caller: Seq<u8>, borrower: Seq<u8>) -> Result<
    ContractView,
    CreditError,
> {
    match admin_refusal(s, caller) {
        Some(e) => Err(e),
        None => if !s.lines.contains_key(borrower) {
            Err(CreditError::CreditLineNotFound)
        } else {
            Ok(with_line(s, borrower, with_status(s.lines[borrower], CreditStatus::Defaulted)))
        },
    }
}

/// Whether an operation that returned `r` moved the state from `pre` to
/// `post` as `step` prescribes: to the prescribed state on success, and
/// nowhere, with the prescribed reason, on refusal.
pub open spec fn follows<T>(
    r: Result<T, CreditError>,
    step: Result<ContractView, CreditError>,
    pre: ContractView,
    post: ContractView,
) -> bool {
    match step {
        Ok(t) => r is Ok && post == t,
        Err(e) => r == Err::<T, CreditError>(e) && post == pre,
    }
}

} // verus!
