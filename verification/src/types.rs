//! Core data types: credit status, stored credit lines, contract error codes
//! and the interest-rate change policy.

use vstd::prelude::*;

use crate::account::AccountId;

verus! {

/// Highest interest rate a credit line may carry, in basis points (100%).
pub const MAX_INTEREST_RATE_BPS: u32 = 10_000;

/// Highest risk score a credit line may carry (0–100 scale).
pub const MAX_RISK_SCORE: u32 = 100;

/// Lifecycle status of a credit line.
#[derive(Clone, Copy, Debug, PartialEq, Eq, Structural)]
pub enum CreditStatus {
    /// Open and available for drawing.
    Active,
    /// Temporarily frozen by the admin.
    Suspended,
    /// The borrower has defaulted.
    Defaulted,
    /// Closed.
    Closed,
}

/// Numeric contract error codes.
#[derive(Clone, Copy, Debug, PartialEq, Eq, Structural)]
pub enum ContractError {
    Unauthorized,
    NotAdmin,
    CreditLineNotFound,
    CreditLineClosed,
    InvalidAmount,
    OverLimit,
    NegativeLimit,
    RateTooHigh,
    ScoreTooHigh,
    UtilizationNotZero,
    Reentrancy,
    Overflow,
}

/// The code of each contract error, from 1 (`Unauthorized`) to 12 (`Overflow`).
pub open spec fn error_code(e: ContractError) -> u32 {
    match e {
        ContractError::Unauthorized => 1,
        ContractError::NotAdmin => 2,
        ContractError::CreditLineNotFound => 3,
        ContractError::CreditLineClosed => 4,
        ContractError::InvalidAmount => 5,
        ContractError::OverLimit => 6,
        ContractError::NegativeLimit => 7,
        ContractError::RateTooHigh => 8,
        ContractError::ScoreTooHigh => 9,
        ContractError::UtilizationNotZero => 10,
        ContractError::Reentrancy => 11,
        ContractError::Overflow => 12,
    }
}

impl ContractError {
    /// The error's numeric code.
    pub fn code(&self) -> (r: u32)
        ensures
            r == error_code(*self),
    {
        match self {
            ContractError::Unauthorized => 1,
            ContractError::NotAdmin => 2,
            ContractError::CreditLineNotFound => 3,
            ContractError::CreditLineClosed => 4,
            ContractError::InvalidAmount => 5,
            ContractError::OverLimit => 6,
            ContractError::NegativeLimit => 7,
            ContractError::RateTooHigh => 8,
            ContractError::ScoreTooHigh => 9,
            ContractError::UtilizationNotZero => 10,
            ContractError::Reentrancy => 11,
            ContractError::Overflow => 12,
        }
    }

    /// The error with the given numeric code, if there is one.
    pub fn from_code(code: u32) -> (r: Option<ContractError>)
        ensures
            match r {
                Some(e) => error_code(e) == code,
                None => code == 0 || code > 12,
            },
    {
        match code {
            1 => Some(ContractError::Unauthorized),
            2 => Some(ContractError::NotAdmin),
            3 => Some(ContractError::CreditLineNotFound),
            4 => Some(ContractError::CreditLineClosed),
            5 => Some(ContractError::InvalidAmount),
            6 => Some(ContractError::OverLimit),
            7 => Some(ContractError::NegativeLimit),
            8 => Some(ContractError::RateTooHigh),
            9 => Some(ContractError::ScoreTooHigh),
            10 => Some(ContractError::UtilizationNotZero),
            11 => Some(ContractError::Reentrancy),
            12 => Some(ContractError::Overflow),
            _ => None,
        }
    }
}

/// Admin-configurable limits on interest-rate changes.
///
/// * `max_rate_change_bps` – largest absolute change of `interest_rate_bps`
///   allowed in one `update_risk_parameters` call.
/// * `rate_change_min_interval` – least number of seconds between two
///   consecutive rate changes; `0` disables the time-window check.
#[derive(Clone, Copy, Debug, PartialEq, Eq, Structural)]
pub struct RateChangeConfig {
    pub max_rate_change_bps: u32,
    pub rate_change_min_interval: u64,
}

/// The stored state of one borrower's credit line.
#[derive(Debug, PartialEq, Eq)]
pub struct CreditLineData {
    /// The borrower.
    pub borrower: AccountId,
    /// Largest amount the borrower may have drawn at once.
    pub credit_limit: i128,
    /// Amount currently drawn and outstanding.
    pub utilized_amount: i128,
    /// Annual interest rate in basis points (300 = 3%).
    pub interest_rate_bps: u32,
    /// Risk score from the risk engine (0–100, higher = riskier).
    pub risk_score: u32,
    /// Lifecycle status.
    pub status: CreditStatus,
    /// Ledger timestamp of the last interest-rate change made by
    /// `update_risk_parameters`; zero when the rate was never changed.
    pub last_rate_update_ts: u64,
}

/// A credit line as a mathematical value.
pub struct CreditLineView {
    pub borrower: Seq<u8>,
    pub credit_limit: i128,
    pub utilized_amount: i128,
    pub interest_rate_bps: u32,
    pub risk_score: u32,
    pub status: CreditStatus,
    pub last_rate_update_ts: u64,
}

impl View for CreditLineData {
    type V = CreditLineView;

    open spec fn view(&self) -> CreditLineView {
        CreditLineView {
            borrower: self.borrower@,
            credit_limit: self.credit_limit,
            utilized_amount: self.utilized_amount,
            interest_rate_bps: self.interest_rate_bps,
            risk_score: self.risk_score,
            status: self.status,
            last_rate_update_ts: self.last_rate_update_ts,
        }
    }
}

/// What every stored credit line satisfies: nothing is drawn beyond the
/// limit, nothing negative is owed, and rate and score lie in their ranges.
pub open spec fn line_valid(l: CreditLineView) -> bool {
    &&& 0 <= l.utilized_amount <= l.credit_limit
    &&& l.interest_rate_bps <= MAX_INTEREST_RATE_BPS
    &&& l.risk_score <= MAX_RISK_SCORE
}

impl CreditLineData {
    /// A second value equal to this one.
    pub fn duplicate(&self) -> (r: CreditLineData)
        ensures
            r@ == self@,
    {
        CreditLineData {
            borrower: self.borrower.duplicate(),
            credit_limit: self.credit_limit,
            utilized_amount: self.utilized_amount,
            interest_rate_bps: self.interest_rate_bps,
            risk_score: self.risk_score,
            status: self.status,
            last_rate_update_ts: self.last_rate_update_ts,
        }
    }
}

} // verus!
