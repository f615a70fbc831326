//! Why an operation is refused.

use vstd::prelude::*;

verus! {

/// The reason an operation leaves the contract unchanged.
#[derive(Clone, Copy, Debug, PartialEq, Eq, Structural)]
pub enum CreditError {
    /// No admin has been set (`init` was never called).
    AdminNotSet,
    /// The caller of an admin operation is not the admin.
    NotAdmin,
    /// `close_credit_line` by someone who is neither the admin nor the borrower.
    Unauthorized,
    /// `open_credit_line` with a limit that is not positive.
    InvalidCreditLimit,
    /// `open_credit_line` with a rate above 10000 bps.
    InterestRateTooHigh,
    /// `open_credit_line` with a score above 100.
    RiskScoreOutOfRange,
    /// `open_credit_line` for a borrower whose line is Active.
    ActiveLineExists,
    /// A draw or repayment while another one is in progress.
    Reentrancy,
    /// A draw or repayment of an amount that is not positive.
    NonPositiveAmount,
    /// The borrower has no credit line.
    CreditLineNotFound,
    /// The credit line is Closed.
    CreditLineClosed,
    /// The credit line is Suspended.
    CreditLineSuspended,
    /// The new utilized amount does not fit in an `i128`.
    Overflow,
    /// The draw would take the utilized amount above the limit.
    ExceedsCreditLimit,
    /// The liquidity source holds less than the amount drawn.
    InsufficientLiquidity,
    /// The borrower allowed the contract to spend less than the repayment.
    InsufficientAllowance,
    /// The borrower holds less than the repayment.
    InsufficientBalance,
    /// `update_risk_parameters` with a negative limit.
    NegativeCreditLimit,
    /// `update_risk_parameters` with a limit below the utilized amount.
    LimitBelowUtilized,
    /// `update_risk_parameters` with a rate above 10000 bps.
    RateExceedsMaximum,
    /// `update_risk_parameters` with a score above 100.
    ScoreExceedsMaximum,
    /// `suspend_credit_line` on a line that is not Active.
    NotActive,
    /// The borrower closing a line that still has an outstanding amount.
    UtilizationNotZero,
    /// A rate change larger than the configured maximum step.
    RateChangeTooLarge,
    /// A rate change sooner than the configured interval after the last one.
    RateChangeTooSoon,
}

/// The text that reports each refusal.
pub open spec fn error_message(e: CreditError) -> &'static str {
    match e {
        CreditError::AdminNotSet => "admin not set",
        CreditError::NotAdmin => "caller is not the admin",
        CreditError::Unauthorized => "unauthorized",
        CreditError::InvalidCreditLimit => "credit_limit must be greater than zero",
        CreditError::InterestRateTooHigh => "interest_rate_bps cannot exceed 10000 (100%)",
        CreditError::RiskScoreOutOfRange => "risk_score must be between 0 and 100",
        CreditError::ActiveLineExists => "borrower already has an active credit line",
        CreditError::Reentrancy => "reentrancy guard",
        CreditError::NonPositiveAmount => "amount must be positive",
        CreditError::CreditLineNotFound => "Credit line not found",
        CreditError::CreditLineClosed => "credit line is closed",
        CreditError::CreditLineSuspended => "credit line is suspended",
        CreditError::Overflow => "overflow",
        CreditError::ExceedsCreditLimit => "exceeds credit limit",
        CreditError::InsufficientLiquidity => "Insufficient liquidity reserve for requested draw amount",
        CreditError::InsufficientAllowance => "Insufficient allowance",
        CreditError::InsufficientBalance => "Insufficient balance",
        CreditError::NegativeCreditLimit => "credit_limit must be non-negative",
        CreditError::LimitBelowUtilized => "credit_limit cannot be less than utilized amount",
        CreditError::RateExceedsMaximum => "interest_rate_bps exceeds maximum",
        CreditError::ScoreExceedsMaximum => "risk_score exceeds maximum",
        CreditError::NotActive => "Only active credit lines can be suspended",
        CreditError::UtilizationNotZero => "cannot close: utilized amount not zero",
        CreditError::RateChangeTooLarge => "interest rate change exceeds maximum step",
        CreditError::RateChangeTooSoon => "interest rate changed too recently",
    }
}

impl CreditError {
    /// The text that reports this refusal.
    pub fn message(&self) -> (r: &'static str)
        ensures
            r == error_message(*self),
    {
        match self {
            CreditError::AdminNotSet => "admin not set",
            CreditError::NotAdmin => "caller is not the admin",
            CreditError::Unauthorized => "unauthorized",
            CreditError::InvalidCreditLimit => "credit_limit must be greater than zero",
            CreditError::InterestRateTooHigh => "interest_rate_bps cannot exceed 10000 (100%)",
            CreditError::RiskScoreOutOfRange => "risk_score must be between 0 and 100",
            CreditError::ActiveLineExists => "borrower already has an active credit line",
            CreditError::Reentrancy => "reentrancy guard",
            CreditError::NonPositiveAmount => "amount must be positive",
            CreditError::CreditLineNotFound => "Credit line not found",
            CreditError::CreditLineClosed => "credit line is closed",
            CreditError::CreditLineSuspended => "credit line is suspended",
            CreditError::Overflow => "overflow",
            CreditError::ExceedsCreditLimit => "exceeds credit limit",
            CreditError::InsufficientLiquidity => "Insufficient liquidity reserve for requested draw amount",
            CreditError::InsufficientAllowance => "Insufficient allowance",
            CreditError::InsufficientBalance => "Insufficient balance",
            CreditError::NegativeCreditLimit => "credit_limit must be non-negative",
            CreditError::LimitBelowUtilized => "credit_limit cannot be less than utilized amount",
            CreditError::RateExceedsMaximum => "interest_rate_bps exceeds maximum",
            CreditError::ScoreExceedsMaximum => "risk_score exceeds maximum",
            CreditError::NotActive => "Only active credit lines can be suspended",
            CreditError::UtilizationNotZero => "cannot close: utilized amount not zero",
            CreditError::RateChangeTooLarge => "interest rate change exceeds maximum step",
            CreditError::RateChangeTooSoon => "interest rate changed too recently",
        }
    }
}

} // verus!
