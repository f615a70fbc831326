use creditra_credit::account::AccountId;
use creditra_credit::contract::CreditContract;
use creditra_credit::error::CreditError;
use creditra_credit::events::{EventData, EventLog, TokenTransfer};
use creditra_credit::types::{CreditLineData, CreditStatus, RateChangeConfig};

fn account(name: &str) -> AccountId {
    AccountId::new(name.as_bytes().to_vec())
}

const CONTRACT: &str = "CCREDITCONTRACT";

/// An initialized contract with one line of 1000 at 300 bps, score 70.
fn with_line(credit_limit: i128) -> (CreditContract, AccountId, AccountId) {
    let admin = account("GADMIN");
    let borrower = account("GBORROWER");
    let mut c = CreditContract::new(account(CONTRACT));
    c.init(admin.duplicate());
    c.open_credit_line(&borrower, credit_limit, 300, 70, &mut EventLog::new()).unwrap();
    (c, admin, borrower)
}

/// A draw whose payout is made at once: the guard is released on success.
fn draw(
    c: &mut CreditContract,
    borrower: &AccountId,
    amount: i128,
    reserve_balance: i128,
    now: u64,
    log: &mut EventLog,
) -> Result<Option<TokenTransfer>, CreditError> {
    let r = c.draw_credit(borrower, amount, reserve_balance, now, log);
    if r.is_ok() {
        c.clear_reentrancy_guard();
    }
    r
}

/// A repayment whose collection is made at once: the guard is released on
/// success.
fn repay(
    c: &mut CreditContract,
    borrower: &AccountId,
    amount: i128,
    allowance: i128,
    balance: i128,
    now: u64,
    log: &mut EventLog,
) -> Result<Option<TokenTransfer>, CreditError> {
    let r = c.repay_credit(borrower, amount, allowance, balance, now, log);
    if r.is_ok() {
        c.clear_reentrancy_guard();
    }
    r
}

/// The payload of the last published event.
fn last(log: &EventLog) -> &EventData {
    &log.entries().last().unwrap().data
}

/// As `with_line`, with a liquidity token configured.
fn with_token(credit_limit: i128) -> (CreditContract, AccountId, AccountId, AccountId) {
    let (mut c, admin, borrower) = with_line(credit_limit);
    let token = account("CTOKEN");
    c.set_liquidity_token(&admin, token.duplicate()).unwrap();
    (c, admin, borrower, token)
}

fn utilized(c: &CreditContract, b: &AccountId) -> i128 {
    c.get_credit_line(b).unwrap().utilized_amount
}

#[test]
fn test_draw_credit_single_within_limit_succeeds_and_updates_utilized() {
    let mut log = EventLog::new();
    let (mut c, _admin, borrower) = with_line(1000);
    assert_eq!(utilized(&c, &borrower), 0);
    draw(&mut c, &borrower, 400, 0, 0, &mut log).unwrap();
    let line = c.get_credit_line(&borrower).unwrap();
    assert_eq!(line.utilized_amount, 400);
    assert_eq!(line.credit_limit, 1000);
}

#[test]
fn test_draw_credit_multiple_draws_within_limit_accumulate_utilized() {
    let mut log = EventLog::new();
    let (mut c, _admin, borrower) = with_line(1000);
    draw(&mut c, &borrower, 100, 0, 0, &mut log).unwrap();
    assert_eq!(utilized(&c, &borrower), 100);
    draw(&mut c, &borrower, 250, 0, 0, &mut log).unwrap();
    assert_eq!(utilized(&c, &borrower), 350);
    draw(&mut c, &borrower, 150, 0, 0, &mut log).unwrap();
    assert_eq!(utilized(&c, &borrower), 500);
}

#[test]
fn test_draw_credit_exact_available_limit_succeeds() {
    let mut log = EventLog::new();
    let (mut c, _admin, borrower) = with_line(5000);
    draw(&mut c, &borrower, 5000, 0, 0, &mut log).unwrap();
    let line = c.get_credit_line(&borrower).unwrap();
    assert_eq!(line.utilized_amount, 5000);
    assert_eq!(line.credit_limit, 5000);
}

#[test]
fn test_draw_credit_rejected_when_exceeding_limit() {
    let mut log = EventLog::new();
    let (mut c, _admin, borrower) = with_line(1000);
    let r = draw(&mut c, &borrower, 1001, 0, 0, &mut log);
    assert_eq!(r.unwrap_err(), CreditError::ExceedsCreditLimit);
    assert_eq!(CreditError::ExceedsCreditLimit.message(), "exceeds credit limit");
    assert_eq!(utilized(&c, &borrower), 0);
}

#[test]
fn test_draw_credit_rejected_when_amount_is_zero() {
    let mut log = EventLog::new();
    let (mut c, _admin, borrower) = with_line(1000);
    assert_eq!(draw(&mut c, &borrower, 0, 0, 0, &mut log).unwrap_err(), CreditError::NonPositiveAmount);
    assert_eq!(CreditError::NonPositiveAmount.message(), "amount must be positive");
}

#[test]
fn test_draw_credit_rejected_when_amount_is_negative() {
    let mut log = EventLog::new();
    let (mut c, _admin, borrower) = with_line(1000);
    assert_eq!(draw(&mut c, &borrower, -100, 0, 0, &mut log).unwrap_err(), CreditError::NonPositiveAmount);
}

#[test]
fn test_draw_credit_rejected_when_suspended() {
    let mut log = EventLog::new();
    let (mut c, admin, borrower) = with_line(1000);
    c.suspend_credit_line(&admin, &borrower, &mut log).unwrap();
    assert_eq!(draw(&mut c, &borrower, 100, 0, 0, &mut log).unwrap_err(), CreditError::CreditLineSuspended);
    assert_eq!(CreditError::CreditLineSuspended.message(), "credit line is suspended");
}

#[test]
fn draw_rejected_when_closed() {
    let mut log = EventLog::new();
    let (mut c, admin, borrower) = with_line(1000);
    c.close_credit_line(&borrower, &admin, &mut log).unwrap();
    assert_eq!(draw(&mut c, &borrower, 100, 0, 0, &mut log).unwrap_err(), CreditError::CreditLineClosed);
    assert_eq!(CreditError::CreditLineClosed.message(), "credit line is closed");
}

#[test]
fn draw_allowed_on_defaulted_line() {
    let mut log = EventLog::new();
    let (mut c, admin, borrower) = with_line(1000);
    c.default_credit_line(&admin, &borrower, &mut log).unwrap();
    draw(&mut c, &borrower, 100, 0, 0, &mut log).unwrap();
    assert_eq!(utilized(&c, &borrower), 100);
}

#[test]
fn draw_on_missing_line_is_refused() {
    let mut log = EventLog::new();
    let (mut c, _admin, _borrower) = with_line(1000);
    let stranger = account("GSTRANGER");
    assert_eq!(draw(&mut c, &stranger, 10, 0, 0, &mut log).unwrap_err(), CreditError::CreditLineNotFound);
    assert_eq!(repay(&mut c, &stranger, 10, 0, 0, 0, &mut log).unwrap_err(), CreditError::CreditLineNotFound);
}

#[test]
fn test_draw_credit_near_i128_max_succeeds_without_overflow() {
    let mut log = EventLog::new();
    let (mut c, _admin, borrower) = with_line(i128::MAX);
    draw(&mut c, &borrower, i128::MAX - 1, 0, 0, &mut log).unwrap();
    draw(&mut c, &borrower, 1, 0, 0, &mut log).unwrap();
    assert_eq!(utilized(&c, &borrower), i128::MAX);
}

#[test]
fn test_draw_credit_overflow_reverts_with_defined_error() {
    let mut log = EventLog::new();
    let (mut c, _admin, borrower) = with_line(i128::MAX);
    draw(&mut c, &borrower, i128::MAX - 10, 0, 0, &mut log).unwrap();
    let r = draw(&mut c, &borrower, 11, 0, 0, &mut log);
    assert_eq!(r.unwrap_err(), CreditError::Overflow);
    assert_eq!(CreditError::Overflow.message(), "overflow");
    assert_eq!(utilized(&c, &borrower), i128::MAX - 10);
}

#[test]
fn test_draw_credit_large_values_exceed_limit_reverts_with_defined_error() {
    let mut log = EventLog::new();
    let (mut c, _admin, borrower) = with_line(i128::MAX / 2);
    draw(&mut c, &borrower, i128::MAX / 4, 0, 0, &mut log).unwrap();
    let r = draw(&mut c, &borrower, i128::MAX / 2, 0, 0, &mut log);
    assert_eq!(r.unwrap_err(), CreditError::ExceedsCreditLimit);
}

#[test]
fn draw_event_reports_amount_total_and_time() {
    let mut log = EventLog::new();
    let (mut c, _admin, borrower) = with_line(1000);
    draw(&mut c, &borrower, 100, 0, 5, &mut log).unwrap();
    let payout = draw(&mut c, &borrower, 250, 0, 77, &mut log).unwrap();
    assert!(payout.is_none());
    assert_eq!(log.entries().len(), 2);
    let e = log.entries().last().unwrap();
    assert_eq!((e.namespace, e.topic), ("credit", "drawn"));
    match &e.data {
        EventData::Drawn(d) => {
            assert_eq!(d.borrower, borrower);
            assert_eq!(d.amount, 250);
            assert_eq!(d.new_utilized_amount, 350);
            assert_eq!(d.timestamp, 77);
        }
        other => panic!("unexpected event {:?}", other),
    }
}

#[test]
fn test_draw_credit_with_sufficient_liquidity() {
    let mut log = EventLog::new();
    let (mut c, _admin, borrower, token) = with_token(1000);
    let payout = draw(&mut c, &borrower, 500, 500, 0, &mut log).unwrap().unwrap();
    assert_eq!(payout.token, token);
    assert_eq!(payout.from, account(CONTRACT));
    assert_eq!(payout.to, borrower);
    assert_eq!(payout.amount, 500);
    assert_eq!(utilized(&c, &borrower), 500);
}

#[test]
fn test_draw_credit_with_insufficient_liquidity() {
    let mut log = EventLog::new();
    let (mut c, _admin, borrower, _token) = with_token(1000);
    let r = draw(&mut c, &borrower, 100, 50, 0, &mut log);
    assert_eq!(r.unwrap_err(), CreditError::InsufficientLiquidity);
    assert_eq!(
        CreditError::InsufficientLiquidity.message(),
        "Insufficient liquidity reserve for requested draw amount"
    );
    assert_eq!(utilized(&c, &borrower), 0);
}

#[test]
fn test_draw_credit_uses_configured_external_liquidity_source() {
    let mut log = EventLog::new();
    let (mut c, admin, borrower, _token) = with_token(1000);
    let reserve = account("GRESERVE");
    c.set_liquidity_source(&admin, reserve.duplicate()).unwrap();
    let payout = draw(&mut c, &borrower, 200, 1000, 0, &mut log).unwrap();
    assert_eq!(payout.unwrap().from, reserve);
}

#[test]
fn test_set_liquidity_token_requires_admin_auth() {
    let (mut c, _admin, borrower) = with_line(1000);
    assert_eq!(c.set_liquidity_token(&borrower, account("CTOKEN")), Err(CreditError::NotAdmin));
    assert!(c.liquidity_token().is_none());
}

#[test]
fn test_set_liquidity_source_requires_admin_auth() {
    let (mut c, _admin, borrower) = with_line(1000);
    assert_eq!(c.set_liquidity_source(&borrower, account("GRESERVE")), Err(CreditError::NotAdmin));
    assert_eq!(c.liquidity_source(), Some(account(CONTRACT)));
}

#[test]
fn test_set_liquidity_source_updates_instance_storage() {
    let (mut c, admin, _borrower) = with_line(1000);
    c.set_liquidity_source(&admin, account("GRESERVE")).unwrap();
    assert_eq!(c.liquidity_source(), Some(account("GRESERVE")));
}

#[test]
fn test_repay_credit_partial_repayment() {
    let mut log = EventLog::new();
    let (mut c, _admin, borrower) = with_line(2000);
    draw(&mut c, &borrower, 1000, 0, 0, &mut log).unwrap();
    repay(&mut c, &borrower, 300, 0, 0, 0, &mut log).unwrap();
    let line = c.get_credit_line(&borrower).unwrap();
    assert_eq!(line.utilized_amount, 700);
    assert_eq!(line.credit_limit, 2000);
    assert_eq!(line.status, CreditStatus::Active);
    repay(&mut c, &borrower, 200, 0, 0, 0, &mut log).unwrap();
    assert_eq!(utilized(&c, &borrower), 500);
}

#[test]
fn test_repay_credit_multiple_partial_to_full() {
    let mut log = EventLog::new();
    let (mut c, _admin, borrower) = with_line(5000);
    draw(&mut c, &borrower, 1500, 0, 0, &mut log).unwrap();
    repay(&mut c, &borrower, 500, 0, 0, 0, &mut log).unwrap();
    assert_eq!(utilized(&c, &borrower), 1000);
    repay(&mut c, &borrower, 400, 0, 0, 0, &mut log).unwrap();
    assert_eq!(utilized(&c, &borrower), 600);
    repay(&mut c, &borrower, 600, 0, 0, 0, &mut log).unwrap();
    assert_eq!(utilized(&c, &borrower), 0);
}

#[test]
fn test_repay_credit_overpayment() {
    let mut log = EventLog::new();
    let (mut c, _admin, borrower) = with_line(1000);
    draw(&mut c, &borrower, 300, 0, 0, &mut log).unwrap();
    repay(&mut c, &borrower, 500, 0, 0, 0, &mut log).unwrap();
    assert_eq!(utilized(&c, &borrower), 0);
    match last(&log) {
        EventData::Repayment(e) => {
            assert_eq!(e.amount, 300);
            assert_eq!(e.new_utilized_amount, 0);
        }
        other => panic!("unexpected event {:?}", other),
    }
}

#[test]
fn test_repay_credit_zero_utilization() {
    let mut log = EventLog::new();
    let (mut c, _admin, borrower) = with_line(1000);
    repay(&mut c, &borrower, 100, 0, 0, 0, &mut log).unwrap();
    assert_eq!(utilized(&c, &borrower), 0);
    match last(&log) {
        EventData::Repayment(e) => assert_eq!(e.amount, 0),
        other => panic!("unexpected event {:?}", other),
    }
}

#[test]
fn test_repay_credit_suspended_status() {
    let mut log = EventLog::new();
    let (mut c, admin, borrower) = with_line(1000);
    draw(&mut c, &borrower, 500, 0, 0, &mut log).unwrap();
    c.suspend_credit_line(&admin, &borrower, &mut log).unwrap();
    repay(&mut c, &borrower, 200, 0, 0, 0, &mut log).unwrap();
    let line = c.get_credit_line(&borrower).unwrap();
    assert_eq!(line.utilized_amount, 300);
    assert_eq!(line.status, CreditStatus::Suspended);
}

#[test]
fn test_repay_credit_invalid_amount_zero() {
    let mut log = EventLog::new();
    let (mut c, _admin, borrower) = with_line(1000);
    assert_eq!(repay(&mut c, &borrower, 0, 0, 0, 0, &mut log).unwrap_err(), CreditError::NonPositiveAmount);
}

#[test]
fn test_repay_credit_invalid_amount_negative() {
    let mut log = EventLog::new();
    let (mut c, _admin, borrower) = with_line(1000);
    assert_eq!(repay(&mut c, &borrower, -100, 0, 0, 0, &mut log).unwrap_err(), CreditError::NonPositiveAmount);
}

#[test]
fn test_repay_credit_rejected_when_closed() {
    let mut log = EventLog::new();
    let (mut c, admin, borrower) = with_line(1000);
    c.close_credit_line(&borrower, &admin, &mut log).unwrap();
    assert_eq!(repay(&mut c, &borrower, 100, 0, 0, 0, &mut log).unwrap_err(), CreditError::CreditLineClosed);
}

#[test]
fn test_repay_credit_state_consistency() {
    let mut log = EventLog::new();
    let admin = account("GADMIN");
    let borrower = account("GBORROWER");
    let mut c = CreditContract::new(account(CONTRACT));
    c.init(admin.duplicate());
    c.open_credit_line(&borrower, 3000, 350, 85, &mut log).unwrap();
    draw(&mut c, &borrower, 800, 0, 0, &mut log).unwrap();
    repay(&mut c, &borrower, 300, 0, 0, 0, &mut log).unwrap();
    let line = c.get_credit_line(&borrower).unwrap();
    assert_eq!(line.utilized_amount, 500);
    assert_eq!(line.credit_limit, 3000);
    assert_eq!(line.interest_rate_bps, 350);
    assert_eq!(line.risk_score, 85);
    assert_eq!(line.status, CreditStatus::Active);
    assert_eq!(line.borrower, borrower);
}

#[test]
fn test_repay_credit_transfers_token_to_configured_liquidity_source() {
    let mut log = EventLog::new();
    let (mut c, admin, borrower) = with_line(1000);
    draw(&mut c, &borrower, 250, 0, 0, &mut log).unwrap();
    let token = account("CTOKEN");
    let reserve = account("GRESERVE");
    c.set_liquidity_token(&admin, token.duplicate()).unwrap();
    c.set_liquidity_source(&admin, reserve.duplicate()).unwrap();
    let collection = repay(&mut c, &borrower, 100, 100, 250, 9, &mut log).unwrap().unwrap();
    assert_eq!(collection.token, token);
    assert_eq!(collection.from, borrower);
    assert_eq!(collection.to, reserve);
    assert_eq!(collection.amount, 100);
    match last(&log) {
        EventData::Repayment(e) => assert_eq!(e.timestamp, 9),
        other => panic!("unexpected event {:?}", other),
    }
    assert_eq!(utilized(&c, &borrower), 150);
}

#[test]
fn test_repay_credit_reverts_on_insufficient_allowance() {
    let mut log = EventLog::new();
    let (mut c, _admin, borrower, _token) = with_token(1000);
    draw(&mut c, &borrower, 300, 1000, 0, &mut log).unwrap();
    let r = repay(&mut c, &borrower, 200, 100, 1000, 0, &mut log);
    assert_eq!(r.unwrap_err(), CreditError::InsufficientAllowance);
    assert_eq!(CreditError::InsufficientAllowance.message(), "Insufficient allowance");
    assert_eq!(utilized(&c, &borrower), 300);
}

#[test]
fn test_repay_credit_reverts_on_insufficient_balance() {
    let mut log = EventLog::new();
    let (mut c, _admin, borrower, _token) = with_token(1000);
    draw(&mut c, &borrower, 300, 1000, 0, &mut log).unwrap();
    let r = repay(&mut c, &borrower, 200, 200, 100, 0, &mut log);
    assert_eq!(r.unwrap_err(), CreditError::InsufficientBalance);
    assert_eq!(CreditError::InsufficientBalance.message(), "Insufficient balance");
}

#[test]
fn repay_with_nothing_owed_collects_nothing() {
    let mut log = EventLog::new();
    let (mut c, _admin, borrower, _token) = with_token(1000);
    let collection = repay(&mut c, &borrower, 200, 0, 0, 0, &mut log).unwrap();
    assert!(collection.is_none());
}

#[test]
fn repaying_a_draw_restores_the_line() {
    let mut log = EventLog::new();
    let (mut c, _admin, borrower, _token) = with_token(1000);
    draw(&mut c, &borrower, 120, 1000, 0, &mut log).unwrap();
    let before = c.get_credit_line(&borrower).unwrap();
    draw(&mut c, &borrower, 400, 1000, 0, &mut log).unwrap();
    repay(&mut c, &borrower, 400, 400, 400, 0, &mut log).unwrap();
    assert_eq!(c.get_credit_line(&borrower).unwrap(), before);
}

#[test]
fn test_update_risk_parameters_success() {
    let mut log = EventLog::new();
    let (mut c, admin, borrower) = with_line(1000);
    c.update_risk_parameters(&admin, &borrower, 2000, 400, 85, 10, &mut log).unwrap();
    let line = c.get_credit_line(&borrower).unwrap();
    assert_eq!(line.credit_limit, 2000);
    assert_eq!(line.interest_rate_bps, 400);
    assert_eq!(line.risk_score, 85);
    assert_eq!(line.last_rate_update_ts, 10);
    let e = log.entries().last().unwrap();
    assert_eq!((e.namespace, e.topic), ("credit", "risk_upd"));
    match &e.data {
        EventData::RiskUpdated(ev) => {
            assert_eq!(ev.borrower, borrower);
            assert_eq!(ev.credit_limit, 2000);
            assert_eq!(ev.interest_rate_bps, 400);
            assert_eq!(ev.risk_score, 85);
        }
        other => panic!("unexpected event {:?}", other),
    }
}

#[test]
fn test_update_risk_parameters_unauthorized_caller() {
    let mut log = EventLog::new();
    let (mut c, _admin, borrower) = with_line(1000);
    let r = c.update_risk_parameters(&borrower, &borrower, 2000, 400, 85, 0, &mut log);
    assert_eq!(r.unwrap_err(), CreditError::NotAdmin);
    assert_eq!(c.get_credit_line(&borrower).unwrap().credit_limit, 1000);
}

#[test]
fn test_update_risk_parameters_nonexistent_line() {
    let mut log = EventLog::new();
    let (mut c, admin, _borrower) = with_line(1000);
    let r = c.update_risk_parameters(&admin, &account("GOTHER"), 2000, 400, 85, 0, &mut log);
    assert_eq!(r.unwrap_err(), CreditError::CreditLineNotFound);
}

#[test]
fn test_update_risk_parameters_credit_limit_below_utilized() {
    let mut log = EventLog::new();
    let (mut c, admin, borrower) = with_line(1000);
    draw(&mut c, &borrower, 500, 0, 0, &mut log).unwrap();
    let r = c.update_risk_parameters(&admin, &borrower, 400, 300, 70, 0, &mut log);
    assert_eq!(r.unwrap_err(), CreditError::LimitBelowUtilized);
    assert_eq!(
        CreditError::LimitBelowUtilized.message(),
        "credit_limit cannot be less than utilized amount"
    );
}

#[test]
fn test_update_risk_parameters_negative_credit_limit() {
    let mut log = EventLog::new();
    let (mut c, admin, borrower) = with_line(1000);
    let r = c.update_risk_parameters(&admin, &borrower, -1, 300, 70, 0, &mut log);
    assert_eq!(r.unwrap_err(), CreditError::NegativeCreditLimit);
    assert_eq!(CreditError::NegativeCreditLimit.message(), "credit_limit must be non-negative");
}

#[test]
fn test_update_risk_parameters_interest_rate_exceeds_max() {
    let mut log = EventLog::new();
    let (mut c, admin, borrower) = with_line(1000);
    let r = c.update_risk_parameters(&admin, &borrower, 1000, 10_001, 70, 0, &mut log);
    assert_eq!(r.unwrap_err(), CreditError::RateExceedsMaximum);
    assert_eq!(CreditError::RateExceedsMaximum.message(), "interest_rate_bps exceeds maximum");
}

#[test]
fn test_update_risk_parameters_risk_score_exceeds_max() {
    let mut log = EventLog::new();
    let (mut c, admin, borrower) = with_line(1000);
    let r = c.update_risk_parameters(&admin, &borrower, 1000, 300, 101, 0, &mut log);
    assert_eq!(r.unwrap_err(), CreditError::ScoreExceedsMaximum);
    assert_eq!(CreditError::ScoreExceedsMaximum.message(), "risk_score exceeds maximum");
}

#[test]
fn test_update_risk_parameters_at_boundaries() {
    let mut log = EventLog::new();
    let (mut c, admin, borrower) = with_line(1000);
    c.update_risk_parameters(&admin, &borrower, 1000, 10_000, 100, 0, &mut log).unwrap();
    let line = c.get_credit_line(&borrower).unwrap();
    assert_eq!(line.interest_rate_bps, 10_000);
    assert_eq!(line.risk_score, 100);
}

#[test]
fn update_to_zero_limit_allowed_when_nothing_owed() {
    let mut log = EventLog::new();
    let (mut c, admin, borrower) = with_line(1000);
    c.update_risk_parameters(&admin, &borrower, 0, 300, 70, 0, &mut log).unwrap();
    assert_eq!(c.get_credit_line(&borrower).unwrap().credit_limit, 0);
    assert_eq!(draw(&mut c, &borrower, 1, 0, 0, &mut log).unwrap_err(), CreditError::ExceedsCreditLimit);
}

#[test]
fn rate_change_limits_apply_once_configured() {
    let mut log = EventLog::new();
    let (mut c, admin, borrower) = with_line(1000);
    let config = RateChangeConfig { max_rate_change_bps: 100, rate_change_min_interval: 3600 };
    assert_eq!(c.set_rate_change_config(&borrower, config), Err(CreditError::NotAdmin));
    c.set_rate_change_config(&admin, config).unwrap();
    assert_eq!(c.rate_change_config(), Some(config));
    // A step of 101 bps is too large.
    let r = c.update_risk_parameters(&admin, &borrower, 1000, 401, 70, 1000, &mut log);
    assert_eq!(r.unwrap_err(), CreditError::RateChangeTooLarge);
    // The first change has no earlier change to wait for.
    c.update_risk_parameters(&admin, &borrower, 1000, 400, 70, 1000, &mut log).unwrap();
    assert_eq!(c.get_credit_line(&borrower).unwrap().last_rate_update_ts, 1000);
    // A second change within the interval is refused.
    let r = c.update_risk_parameters(&admin, &borrower, 1000, 350, 70, 4599, &mut log);
    assert_eq!(r.unwrap_err(), CreditError::RateChangeTooSoon);
    // Other parameters may change at any time.
    c.update_risk_parameters(&admin, &borrower, 1500, 400, 60, 1001, &mut log).unwrap();
    assert_eq!(c.get_credit_line(&borrower).unwrap().last_rate_update_ts, 1000);
    // Once the interval has passed the rate may change again.
    c.update_risk_parameters(&admin, &borrower, 1500, 350, 60, 4600, &mut log).unwrap();
    let line = c.get_credit_line(&borrower).unwrap();
    assert_eq!(line.interest_rate_bps, 350);
    assert_eq!(line.last_rate_update_ts, 4600);
}

#[test]
fn test_close_credit_line_borrower_when_utilized_zero() {
    let mut log = EventLog::new();
    let (mut c, _admin, borrower) = with_line(1000);
    c.close_credit_line(&borrower, &borrower, &mut log).unwrap();
    let line = c.get_credit_line(&borrower).unwrap();
    assert_eq!(line.status, CreditStatus::Closed);
    assert_eq!(line.utilized_amount, 0);
}

#[test]
fn test_close_credit_line_borrower_rejected_when_utilized_nonzero() {
    let mut log = EventLog::new();
    let (mut c, _admin, borrower) = with_line(1000);
    draw(&mut c, &borrower, 300, 0, 0, &mut log).unwrap();
    let r = c.close_credit_line(&borrower, &borrower, &mut log);
    assert_eq!(r, Err(CreditError::UtilizationNotZero));
    assert_eq!(r.unwrap_err().message(), "cannot close: utilized amount not zero");
}

#[test]
fn test_close_credit_line_admin_force_close_with_utilization() {
    let mut log = EventLog::new();
    let (mut c, admin, borrower) = with_line(1000);
    draw(&mut c, &borrower, 300, 0, 0, &mut log).unwrap();
    c.close_credit_line(&borrower, &admin, &mut log).unwrap();
    let line = c.get_credit_line(&borrower).unwrap();
    assert_eq!(line.status, CreditStatus::Closed);
    assert_eq!(line.utilized_amount, 300);
}

#[test]
fn test_close_utilized_borrower_rejected_on_suspended_line() {
    let mut log = EventLog::new();
    let (mut c, admin, borrower) = with_line(1000);
    draw(&mut c, &borrower, 200, 0, 0, &mut log).unwrap();
    c.suspend_credit_line(&admin, &borrower, &mut log).unwrap();
    assert_eq!(c.close_credit_line(&borrower, &borrower, &mut log), Err(CreditError::UtilizationNotZero));
}

#[test]
fn test_close_utilized_admin_force_close_suspended_line() {
    let mut log = EventLog::new();
    let (mut c, admin, borrower) = with_line(1000);
    draw(&mut c, &borrower, 600, 0, 0, &mut log).unwrap();
    c.suspend_credit_line(&admin, &borrower, &mut log).unwrap();
    c.close_credit_line(&borrower, &admin, &mut log).unwrap();
    let line = c.get_credit_line(&borrower).unwrap();
    assert_eq!(line.status, CreditStatus::Closed);
    assert_eq!(line.utilized_amount, 600);
}

#[test]
fn test_close_utilized_borrower_succeeds_after_full_repayment() {
    let mut log = EventLog::new();
    let (mut c, _admin, borrower) = with_line(1000);
    draw(&mut c, &borrower, 350, 0, 0, &mut log).unwrap();
    repay(&mut c, &borrower, 350, 0, 0, 0, &mut log).unwrap();
    assert_eq!(utilized(&c, &borrower), 0);
    c.close_credit_line(&borrower, &borrower, &mut log).unwrap();
    assert_eq!(c.get_credit_line(&borrower).unwrap().status, CreditStatus::Closed);
}

#[test]
fn test_close_utilized_third_party_rejected_with_zero_utilization() {
    let mut log = EventLog::new();
    let (mut c, _admin, borrower) = with_line(1000);
    let r = c.close_credit_line(&borrower, &account("GTHIRDPARTY"), &mut log);
    assert_eq!(r, Err(CreditError::Unauthorized));
    assert_eq!(r.unwrap_err().message(), "unauthorized");
    assert_eq!(c.get_credit_line(&borrower).unwrap().status, CreditStatus::Active);
}

#[test]
fn test_close_utilized_admin_force_close_multiple_draws() {
    let mut log = EventLog::new();
    let (mut c, admin, borrower) = with_line(1000);
    draw(&mut c, &borrower, 100, 0, 0, &mut log).unwrap();
    draw(&mut c, &borrower, 150, 0, 0, &mut log).unwrap();
    draw(&mut c, &borrower, 250, 0, 0, &mut log).unwrap();
    assert_eq!(utilized(&c, &borrower), 500);
    c.close_credit_line(&borrower, &admin, &mut log).unwrap();
    let line = c.get_credit_line(&borrower).unwrap();
    assert_eq!(line.status, CreditStatus::Closed);
    assert_eq!(line.utilized_amount, 500);
}

#[test]
fn test_close_utilized_borrower_rejected_after_partial_repayment() {
    let mut log = EventLog::new();
    let (mut c, _admin, borrower) = with_line(1000);
    draw(&mut c, &borrower, 400, 0, 0, &mut log).unwrap();
    repay(&mut c, &borrower, 200, 0, 0, 0, &mut log).unwrap();
    assert_eq!(utilized(&c, &borrower), 200);
    assert_eq!(c.close_credit_line(&borrower, &borrower, &mut log), Err(CreditError::UtilizationNotZero));
}

#[test]
fn operations_leave_other_borrowers_alone() {
    let mut log = EventLog::new();
    let (mut c, admin, borrower) = with_line(1000);
    let other = account("GOTHER");
    c.open_credit_line(&other, 2000, 400, 80, &mut log).unwrap();
    let other_before = c.get_credit_line(&other).unwrap();
    draw(&mut c, &borrower, 300, 0, 0, &mut log).unwrap();
    repay(&mut c, &borrower, 100, 0, 0, 0, &mut log).unwrap();
    c.update_risk_parameters(&admin, &borrower, 900, 500, 50, 3, &mut log).unwrap();
    c.suspend_credit_line(&admin, &borrower, &mut log).unwrap();
    c.close_credit_line(&borrower, &admin, &mut log).unwrap();
    assert_eq!(c.get_credit_line(&other).unwrap(), other_before);
}

#[test]
fn restore_and_load_lines() {
    let mut log = EventLog::new();
    let admin = account("GADMIN");
    let borrower = account("GBORROWER");
    let mut c = CreditContract::restore(
        account(CONTRACT),
        Some(admin.duplicate()),
        Some(account("CTOKEN")),
        None,
        None,
        false,
    );
    let line = CreditLineData {
        borrower: borrower.duplicate(),
        credit_limit: 1000,
        utilized_amount: 400,
        interest_rate_bps: 300,
        risk_score: 70,
        status: CreditStatus::Suspended,
        last_rate_update_ts: 0,
    };
    assert!(c.load_line(line.duplicate()));
    // A second line for the same borrower is refused.
    assert!(!c.load_line(line.duplicate()));
    // A line owing more than its limit is refused.
    let bad = CreditLineData {
        borrower: account("GOTHER"),
        credit_limit: 10,
        utilized_amount: 11,
        interest_rate_bps: 300,
        risk_score: 70,
        status: CreditStatus::Active,
        last_rate_update_ts: 0,
    };
    assert!(!c.load_line(bad));
    assert!(c.get_credit_line(&account("GOTHER")).is_none());
    assert_eq!(c.get_credit_line(&borrower).unwrap(), line);
    // The contract itself is the reserve when no source is configured.
    let collection = repay(&mut c, &borrower, 100, 100, 100, 0, &mut log).unwrap();
    assert_eq!(collection.unwrap().to, account(CONTRACT));
}

#[test]
fn locked_contract_refuses_draws_and_repayments() {
    let mut log = EventLog::new();
    let admin = account("GADMIN");
    let borrower = account("GBORROWER");
    let mut c = CreditContract::restore(account(CONTRACT), Some(admin), None, None, None, true);
    let line = CreditLineData {
        borrower: borrower.duplicate(),
        credit_limit: 1000,
        utilized_amount: 400,
        interest_rate_bps: 300,
        risk_score: 70,
        status: CreditStatus::Active,
        last_rate_update_ts: 0,
    };
    assert!(c.load_line(line));
    assert_eq!(draw(&mut c, &borrower, 10, 0, 0, &mut log).unwrap_err(), CreditError::Reentrancy);
    assert_eq!(repay(&mut c, &borrower, 10, 0, 0, 0, &mut log).unwrap_err(), CreditError::Reentrancy);
    assert_eq!(CreditError::Reentrancy.message(), "reentrancy guard");
    assert!(c.reentrancy_locked());
}

#[test]
fn guard_held_until_released() {
    let mut log = EventLog::new();
    let (mut c, _admin, borrower, _token) = with_token(1000);
    let payout = c.draw_credit(&borrower, 100, 1000, 0, &mut log).unwrap();
    assert!(payout.is_some());
    assert!(c.reentrancy_locked());
    // A reentrant draw or repayment during the payout is refused.
    assert_eq!(c.draw_credit(&borrower, 1, 1000, 0, &mut log), Err(CreditError::Reentrancy));
    assert_eq!(c.repay_credit(&borrower, 1, 1, 1, 0, &mut log), Err(CreditError::Reentrancy));
    assert_eq!(log.entries().len(), 1);
    c.clear_reentrancy_guard();
    assert!(!c.reentrancy_locked());
    draw(&mut c, &borrower, 1, 1000, 0, &mut log).unwrap();
    assert_eq!(utilized(&c, &borrower), 101);
}

#[test]
fn repayment_due_is_the_applied_part() {
    let mut log = EventLog::new();
    let (mut c, _admin, borrower) = with_line(1000);
    draw(&mut c, &borrower, 300, 0, 0, &mut log).unwrap();
    assert_eq!(c.repayment_due(&borrower, 500), 300);
    assert_eq!(c.repayment_due(&borrower, 100), 100);
    assert_eq!(c.repayment_due(&borrower, 0), 0);
    assert_eq!(c.repayment_due(&account("GOTHER"), 100), 0);
}
