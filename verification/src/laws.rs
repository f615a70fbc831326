//! Properties of the protocol that span operations or hold of every state.

use vstd::prelude::*;

use crate::error::CreditError;
use crate::events::{
    CreditEventKind, event_kind_name, DRAWN_TOPIC, EVENT_NAMESPACE, REPAY_TOPIC,
    RISK_UPDATED_TOPIC,
};
use crate::spec::{
    ContractView, admin_refusal, applied_repayment, clear_guard_step, close_step, default_step,
    draw_step, init_step, may_close, open_step, opened_line, repay_step, reserve_of,
    set_rate_config_step, set_source_step, set_token_step, state_valid, suspend_step, update_step,
};
use crate::types::{
    ContractError, CreditStatus, RateChangeConfig, error_code, MAX_INTEREST_RATE_BPS,
    MAX_RISK_SCORE,
};

verus! {

/// `t` differs from `s` at most in the line of `b` and the reentrancy guard.
pub open spec fn only_line_changed(s: ContractView, t: ContractView, b: Seq<u8>) -> bool {
    &&& t.contract_address == s.contract_address
    &&& t.admin == s.admin
    &&& t.liquidity_token == s.liquidity_token
    &&& t.liquidity_source == s.liquidity_source
    &&& t.rate_change_config == s.rate_change_config
    &&& forall|k: Seq<u8>| k != b ==> (#[trigger] t.lines.contains_key(k) == s.lines.contains_key(k)
        && (s.lines.contains_key(k) ==> t.lines[k] == s.lines[k]))
    &&& t.lines.contains_key(b)
}

/// Every operation on a valid state that succeeds leads to a valid state:
/// no line ever owes a negative amount or more than its limit, and rates
/// and scores stay in range.
pub proof fn law_operations_preserve_validity(
    s: ContractView,
    caller: Seq<u8>,
    borrower: Seq<u8>,
    account: Seq<u8>,
    amount: i128,
    x: i128,
    y: i128,
    credit_limit: i128,
    interest_rate_bps: u32,
    risk_score: u32,
    now: u64,
    config: RateChangeConfig,
)
    requires
        state_valid(s),
    ensures
        state_valid(init_step(s, account)),
        state_valid(clear_guard_step(s)),
        set_token_step(s, caller, account) matches Ok(t) ==> state_valid(t),
        set_source_step(s, caller, account) matches Ok(t) ==> state_valid(t),
        set_rate_config_step(s, caller, config) matches Ok(t) ==> state_valid(t),
        open_step(s, borrower, credit_limit, interest_rate_bps, risk_score) matches Ok(t)
            ==> state_valid(t),
        draw_step(s, borrower, amount, x) matches Ok(t) ==> state_valid(t),
        repay_step(s, borrower, amount, x, y) matches Ok(t) ==> state_valid(t),
        update_step(s, caller, borrower, credit_limit, interest_rate_bps, risk_score, now) matches Ok(
            t,
        ) ==> state_valid(t),
        suspend_step(s, caller, borrower) matches Ok(t) ==> state_valid(t),
        close_step(s, borrower, caller) matches Ok(t) ==> state_valid(t),
        default_step(s, caller, borrower) matches Ok(t) ==> state_valid(t),
{
}

/// Each borrower's line lives in a slot of its own: an operation on one
/// borrower's line changes no other borrower's line and no configuration,
/// and leaves the borrower with a line. Only draws and repayments touch the
/// reentrancy guard.
pub proof fn law_operations_touch_only_their_line(
    s: ContractView,
    caller: Seq<u8>,
    borrower: Seq<u8>,
    amount: i128,
    x: i128,
    y: i128,
    credit_limit: i128,
    interest_rate_bps: u32,
    risk_score: u32,
    now: u64,
)
    ensures
        open_step(s, borrower, credit_limit, interest_rate_bps, risk_score) matches Ok(t)
            ==> only_line_changed(s, t, borrower),
        draw_step(s, borrower, amount, x) matches Ok(t) ==> only_line_changed(s, t, borrower),
        repay_step(s, borrower, amount, x, y) matches Ok(t) ==> only_line_changed(s, t, borrower),
        update_step(s, caller, borrower, credit_limit, interest_rate_bps, risk_score, now) matches Ok(
            t,
        ) ==> only_line_changed(s, t, borrower),
        suspend_step(s, caller, borrower) matches Ok(t) ==> only_line_changed(s, t, borrower),
        close_step(s, borrower, caller) matches Ok(t) ==> only_line_changed(s, t, borrower),
        default_step(s, caller, borrower) matches Ok(t) ==> only_line_changed(s, t, borrower),
        open_step(s, borrower, credit_limit, interest_rate_bps, risk_score) matches Ok(t)
            ==> t.reentrancy_locked == s.reentrancy_locked,
        update_step(s, caller, borrower, credit_limit, interest_rate_bps, risk_score, now) matches Ok(
            t,
        ) ==> t.reentrancy_locked == s.reentrancy_locked,
        suspend_step(s, caller, borrower) matches Ok(t) ==> t.reentrancy_locked == s.reentrancy_locked,
        close_step(s, borrower, caller) matches Ok(t) ==> t.reentrancy_locked == s.reentrancy_locked,
        default_step(s, caller, borrower) matches Ok(t) ==> t.reentrancy_locked == s.reentrancy_locked,
{
}

/// A line is opened exactly when the limit is positive, the rate and score
/// are in range and the borrower has no Active line; the line read back is
/// Active, owes nothing and carries the given parameters.
pub proof fn law_open_then_read(
    s: ContractView,
    borrower: Seq<u8>,
    credit_limit: i128,
    interest_rate_bps: u32,
    risk_score: u32,
)
    ensures
        open_step(s, borrower, credit_limit, interest_rate_bps, risk_score) is Ok <==> (0
            < credit_limit && interest_rate_bps <= MAX_INTEREST_RATE_BPS && risk_score
            <= MAX_RISK_SCORE && !(s.lines.contains_key(borrower) && s.lines[borrower].status
            == CreditStatus::Active)),
        open_step(s, borrower, credit_limit, interest_rate_bps, risk_score) matches Ok(t) ==> {
            &&& t.lines.contains_key(borrower)
            &&& t.lines[borrower] == opened_line(borrower, credit_limit, interest_rate_bps, risk_score)
            &&& t.lines[borrower].utilized_amount == 0
            &&& t.lines[borrower].status == CreditStatus::Active
        },
{
}

/// Repaying what was just drawn restores the state before the draw, when
/// the borrower's allowance and balance cover it (or no token is configured)
/// and the guard is released after each.
pub proof fn law_repay_undoes_draw(
    s: ContractView,
    borrower: Seq<u8>,
    amount: i128,
    reserve_balance: i128,
    allowance: i128,
    balance: i128,
)
    requires
        state_valid(s),
        draw_step(s, borrower, amount, reserve_balance) is Ok,
        s.liquidity_token is None || (allowance >= amount && balance >= amount),
    ensures
        draw_step(s, borrower, amount, reserve_balance) matches Ok(t) ==> repay_step(
            clear_guard_step(t),
            borrower,
            amount,
            allowance,
            balance,
        ) matches Ok(u) && clear_guard_step(u) == s,
{
    if let Ok(t) = draw_step(s, borrower, amount, reserve_balance) {
        let l = s.lines[borrower];
        let t2 = clear_guard_step(t);
        let l2 = t2.lines[borrower];
        assert(applied_repayment(l2.utilized_amount, amount) == amount);
        if let Ok(u) = repay_step(t2, borrower, amount, allowance, balance) {
            assert(u.lines[borrower] == l);
            assert(u.lines =~= s.lines);
        }
    }
}

/// Successive draws add up: after drawing `a`, releasing the guard and
/// drawing `b`, the line owes `a + b` more than before.
pub proof fn law_draws_accumulate(
    s: ContractView,
    borrower: Seq<u8>,
    a: i128,
    b: i128,
    reserve_a: i128,
    reserve_b: i128,
)
    ensures
        draw_step(s, borrower, a, reserve_a) matches Ok(t) ==> (draw_step(clear_guard_step(t), borrower, b, reserve_b) matches Ok(
            u,
        ) ==> u.lines[borrower].utilized_amount == s.lines[borrower].utilized_amount + a + b),
{
}

/// A draw is granted exactly when the line exists, is neither Closed nor
/// Suspended, the amount is positive, the new total stays within the limit
/// and the liquidity source covers the amount (when a token is configured).
pub proof fn law_draw_within_limit(
    s: ContractView,
    borrower: Seq<u8>,
    amount: i128,
    reserve_balance: i128,
)
    requires
        state_valid(s),
    ensures
        draw_step(s, borrower, amount, reserve_balance) is Ok <==> {
            &&& !s.reentrancy_locked
            &&& 0 < amount
            &&& s.lines.contains_key(borrower)
            &&& s.lines[borrower].status != CreditStatus::Closed
            &&& s.lines[borrower].status != CreditStatus::Suspended
            &&& s.lines[borrower].utilized_amount + amount <= s.lines[borrower].credit_limit
            &&& (s.liquidity_token is Some ==> amount <= reserve_balance)
        },
        draw_step(s, borrower, amount, reserve_balance) matches Ok(t)
            ==> t.lines[borrower].utilized_amount == s.lines[borrower].utilized_amount + amount,
{
}

/// A repayment never takes more than is owed: the line owes
/// `max(owed - amount, 0)` afterwards, and all its other fields stay.
pub proof fn law_repay_capped_at_zero(
    s: ContractView,
    borrower: Seq<u8>,
    amount: i128,
    allowance: i128,
    balance: i128,
)
    requires
        state_valid(s),
    ensures
        repay_step(s, borrower, amount, allowance, balance) matches Ok(t) ==> {
            let before = s.lines[borrower];
            let after = t.lines[borrower];
            &&& after.utilized_amount == (if amount >= before.utilized_amount {
                0
            } else {
                before.utilized_amount - amount
            })
            &&& after.credit_limit == before.credit_limit
            &&& after.interest_rate_bps == before.interest_rate_bps
            &&& after.risk_score == before.risk_score
            &&& after.status == before.status
        },
{
}

/// Closing: the admin may close any line and the borrower one that owes
/// nothing; anyone else is refused. Closing keeps what is owed and the risk
/// parameters, and closing a Closed line changes nothing.
pub proof fn law_close_rules(s: ContractView, borrower: Seq<u8>, closer: Seq<u8>)
    requires
        s.admin is Some,
        s.lines.contains_key(borrower),
    ensures
        s.lines[borrower].status != CreditStatus::Closed ==> (close_step(s, borrower, closer) is Ok
            <==> may_close(s.admin->0, borrower, closer, s.lines[borrower])),
        s.lines[borrower].status == CreditStatus::Closed ==> close_step(s, borrower, closer)
            == Ok::<ContractView, CreditError>(s),
        closer != s.admin->0 && closer == borrower && s.lines[borrower].utilized_amount != 0
            && s.lines[borrower].status != CreditStatus::Closed ==> close_step(s, borrower, closer) == Err::<ContractView, CreditError>(
            CreditError::UtilizationNotZero,
        ),
        closer != s.admin->0 && closer != borrower && s.lines[borrower].status != CreditStatus::Closed
            ==> close_step(s, borrower, closer) == Err::<ContractView, CreditError>(
            CreditError::Unauthorized,
        ),
        close_step(s, borrower, closer) matches Ok(t) ==> {
            let before = s.lines[borrower];
            let after = t.lines[borrower];
            &&& after.status == CreditStatus::Closed
            &&& after.utilized_amount == before.utilized_amount
            &&& after.credit_limit == before.credit_limit
            &&& after.interest_rate_bps == before.interest_rate_bps
            &&& after.risk_score == before.risk_score
        },
        close_step(s, borrower, closer) matches Ok(t) ==> close_step(t, borrower, closer) == Ok::<
            ContractView,
            CreditError,
        >(t),
{
}

/// Only the admin configures the contract and changes existing lines:
/// every admin operation by anyone else is refused and changes nothing.
pub proof fn law_admin_only(
    s: ContractView,
    caller: Seq<u8>,
    borrower: Seq<u8>,
    account: Seq<u8>,
    credit_limit: i128,
    interest_rate_bps: u32,
    risk_score: u32,
    now: u64,
    config: RateChangeConfig,
)
    requires
        admin_refusal(s, caller) is Some,
    ensures
        set_token_step(s, caller, account) is Err,
        set_source_step(s, caller, account) is Err,
        set_rate_config_step(s, caller, config) is Err,
        update_step(s, caller, borrower, credit_limit, interest_rate_bps, risk_score, now) is Err,
        suspend_step(s, caller, borrower) is Err,
        default_step(s, caller, borrower) is Err,
        s.admin is None ==> admin_refusal(s, caller) == Some(CreditError::AdminNotSet),
        s.admin is Some ==> admin_refusal(s, caller) == Some(CreditError::NotAdmin),
{
}

/// A line must exist before it can be drawn on, repaid, updated,
/// suspended, closed or defaulted.
pub proof fn law_missing_line_refused(
    s: ContractView,
    caller: Seq<u8>,
    borrower: Seq<u8>,
    amount: i128,
    x: i128,
    y: i128,
    credit_limit: i128,
    interest_rate_bps: u32,
    risk_score: u32,
    now: u64,
)
    requires
        !s.lines.contains_key(borrower),
    ensures
        !s.reentrancy_locked && 0 < amount ==> draw_step(s, borrower, amount, x) == Err::<
            ContractView,
            CreditError,
        >(CreditError::CreditLineNotFound),
        !s.reentrancy_locked ==> repay_step(s, borrower, amount, x, y) == Err::<
            ContractView,
            CreditError,
        >(CreditError::CreditLineNotFound),
        admin_refusal(s, caller) is None ==> update_step(
            s,
            caller,
            borrower,
            credit_limit,
            interest_rate_bps,
            risk_score,
            now,
        ) == Err::<ContractView, CreditError>(CreditError::CreditLineNotFound),
        admin_refusal(s, caller) is None ==> suspend_step(s, caller, borrower) == Err::<
            ContractView,
            CreditError,
        >(CreditError::CreditLineNotFound),
        admin_refusal(s, caller) is None ==> default_step(s, caller, borrower) == Err::<
            ContractView,
            CreditError,
        >(CreditError::CreditLineNotFound),
        s.admin is Some ==> close_step(s, borrower, caller) == Err::<ContractView, CreditError>(
            CreditError::CreditLineNotFound,
        ),
{
}

/// Suspension only applies to Active lines, and Suspended or Closed lines
/// cannot be drawn on; Suspended and Defaulted lines can still be repaid.
pub proof fn law_status_gates(
    s: ContractView,
    caller: Seq<u8>,
    borrower: Seq<u8>,
    amount: i128,
    x: i128,
    y: i128,
)
    requires
        s.lines.contains_key(borrower),
    ensures
        admin_refusal(s, caller) is None && s.lines[borrower].status != CreditStatus::Active
            ==> suspend_step(s, caller, borrower) == Err::<ContractView, CreditError>(
            CreditError::NotActive,
        ),
        s.lines[borrower].status == CreditStatus::Suspended || s.lines[borrower].status
            == CreditStatus::Closed ==> draw_step(s, borrower, amount, x) is Err,
        !s.reentrancy_locked && 0 < amount && s.lines[borrower].status != CreditStatus::Closed
            && s.liquidity_token is None ==> repay_step(s, borrower, amount, x, y) is Ok,
{
}

/// The risk-parameter update keeps the line's amount owed and status, and
/// records the time of a rate change; without rate-change limits, any
/// in-range parameters not below what is owed are accepted from the admin.
pub proof fn law_update_rules(
    s: ContractView,
    caller: Seq<u8>,
    borrower: Seq<u8>,
    credit_limit: i128,
    interest_rate_bps: u32,
    risk_score: u32,
    now: u64,
)
    requires
        s.lines.contains_key(borrower),
    ensures
        update_step(s, caller, borrower, credit_limit, interest_rate_bps, risk_score, now) matches Ok(
            t,
        ) ==> {
            let before = s.lines[borrower];
            let after = t.lines[borrower];
            &&& after.credit_limit == credit_limit
            &&& after.interest_rate_bps == interest_rate_bps
            &&& after.risk_score == risk_score
            &&& after.utilized_amount == before.utilized_amount
            &&& after.status == before.status
            &&& after.last_rate_update_ts == (if interest_rate_bps != before.interest_rate_bps {
                now
            } else {
                before.last_rate_update_ts
            })
        },
        admin_refusal(s, caller) is None && s.rate_change_config is None && s.lines[borrower].utilized_amount
            <= credit_limit && 0 <= credit_limit && interest_rate_bps <= MAX_INTEREST_RATE_BPS
            && risk_score <= MAX_RISK_SCORE ==> update_step(
            s,
            caller,
            borrower,
            credit_limit,
            interest_rate_bps,
            risk_score,
            now,
        ) is Ok,
{
}

/// A draw or repayment that succeeds holds the reentrancy guard until it is
/// released; while the guard is held, every other draw or repayment is
/// refused and changes nothing; releasing it changes nothing else.
pub proof fn law_reentrancy_guard(
    s: ContractView,
    borrower: Seq<u8>,
    other: Seq<u8>,
    amount: i128,
    other_amount: i128,
    x: i128,
    y: i128,
)
    ensures
        s.reentrancy_locked ==> draw_step(s, borrower, amount, x) == Err::<ContractView, CreditError>(
            CreditError::Reentrancy,
        ),
        s.reentrancy_locked ==> repay_step(s, borrower, amount, x, y) == Err::<
            ContractView,
            CreditError,
        >(CreditError::Reentrancy),
        draw_step(s, borrower, amount, x) matches Ok(t) ==> t.reentrancy_locked && draw_step(
            t,
            other,
            other_amount,
            x,
        ) == Err::<ContractView, CreditError>(CreditError::Reentrancy) && repay_step(
            t,
            other,
            other_amount,
            x,
            y,
        ) == Err::<ContractView, CreditError>(CreditError::Reentrancy),
        repay_step(s, borrower, amount, x, y) matches Ok(t) ==> t.reentrancy_locked && draw_step(
            t,
            other,
            other_amount,
            x,
        ) == Err::<ContractView, CreditError>(CreditError::Reentrancy) && repay_step(
            t,
            other,
            other_amount,
            x,
            y,
        ) == Err::<ContractView, CreditError>(CreditError::Reentrancy),
        !clear_guard_step(s).reentrancy_locked,
        clear_guard_step(s).lines == s.lines,
{
}

/// With rate-change limits configured, an otherwise acceptable update that
/// moves the rate by more than the maximum step, up or down, is refused with
/// `RateChangeTooLarge`; a successful update never moves the rate by more
/// than the step.
pub proof fn law_rate_step_limit(
    s: ContractView,
    caller: Seq<u8>,
    borrower: Seq<u8>,
    credit_limit: i128,
    interest_rate_bps: u32,
    risk_score: u32,
    now: u64,
    config: RateChangeConfig,
)
    requires
        s.rate_change_config == Some(config),
        s.lines.contains_key(borrower),
    ensures
        ({
            let old_rate = s.lines[borrower].interest_rate_bps as int;
            let new_rate = interest_rate_bps as int;
            (admin_refusal(s, caller) is None && 0 <= credit_limit && s.lines[borrower].utilized_amount
                <= credit_limit && interest_rate_bps <= MAX_INTEREST_RATE_BPS && risk_score
                <= MAX_RISK_SCORE && (new_rate - old_rate > config.max_rate_change_bps || old_rate
                - new_rate > config.max_rate_change_bps)) ==> update_step(
                s,
                caller,
                borrower,
                credit_limit,
                interest_rate_bps,
                risk_score,
                now,
            ) == Err::<ContractView, CreditError>(CreditError::RateChangeTooLarge)
        }),
        update_step(s, caller, borrower, credit_limit, interest_rate_bps, risk_score, now) matches Ok(
            t,
        ) ==> -(config.max_rate_change_bps as int) <= t.lines[borrower].interest_rate_bps as int
            - s.lines[borrower].interest_rate_bps as int <= config.max_rate_change_bps as int,
{
}

/// A repayment of a positive amount on a line that is not Closed, with the
/// guard free, is granted whenever the borrower's allowance and balance cover
/// the smaller of the amount and what is owed; the line then owes what it
/// owed less the amount, and nothing when the amount covers the debt. The
/// collection is that smaller amount.
pub proof fn law_repay_needs_only_what_is_owed(
    s: ContractView,
    borrower: Seq<u8>,
    amount: i128,
    allowance: i128,
    balance: i128,
)
    requires
        state_valid(s),
        !s.reentrancy_locked,
        s.lines.contains_key(borrower),
        s.lines[borrower].status != CreditStatus::Closed,
        0 < amount,
        amount <= s.lines[borrower].utilized_amount ==> allowance >= amount && balance >= amount,
        amount > s.lines[borrower].utilized_amount ==> allowance >= s.lines[borrower].utilized_amount
            && balance >= s.lines[borrower].utilized_amount,
    ensures
        repay_step(s, borrower, amount, allowance, balance) matches Ok(t) && t.lines[borrower].utilized_amount
            == (if amount >= s.lines[borrower].utilized_amount {
            0
        } else {
            s.lines[borrower].utilized_amount - amount
        }),
        applied_repayment(s.lines[borrower].utilized_amount, amount) == (if amount
            <= s.lines[borrower].utilized_amount {
            amount
        } else {
            s.lines[borrower].utilized_amount
        }),
{
}

/// Defaulting a line changes only its status: what it owes, its limit, rate,
/// score and rate-change time stay as they were, whatever the status before.
pub proof fn law_default_keeps_the_debt(s: ContractView, caller: Seq<u8>, borrower: Seq<u8>)
    requires
        s.lines.contains_key(borrower),
    ensures
        admin_refusal(s, caller) is None ==> default_step(s, caller, borrower) is Ok,
        default_step(s, caller, borrower) matches Ok(t) ==> {
            let before = s.lines[borrower];
            let after = t.lines[borrower];
            &&& after.status == CreditStatus::Defaulted
            &&& after.borrower == before.borrower
            &&& after.utilized_amount == before.utilized_amount
            &&& after.credit_limit == before.credit_limit
            &&& after.interest_rate_bps == before.interest_rate_bps
            &&& after.risk_score == before.risk_score
            &&& after.last_rate_update_ts == before.last_rate_update_ts
        },
{
}

/// A borrower whose line owes nothing may close it, whatever its status
/// (Active, Suspended or Defaulted); the line becomes Closed and keeps its
/// other fields.
pub proof fn law_borrower_closes_settled_line(s: ContractView, borrower: Seq<u8>)
    requires
        s.admin is Some,
        s.lines.contains_key(borrower),
        s.lines[borrower].utilized_amount == 0,
    ensures
        close_step(s, borrower, borrower) matches Ok(t) && t.lines[borrower].status
            == CreditStatus::Closed && t.lines[borrower].utilized_amount == 0
            && t.lines[borrower].credit_limit == s.lines[borrower].credit_limit,
{
}

/// Each liquidity setter changes exactly its own setting: setting the token
/// keeps the liquidity source (so draws keep paying from it), setting the
/// source keeps the token, and neither touches the admin, the rate-change
/// limits, the guard or any line.
pub proof fn law_liquidity_setters_change_one_setting(
    s: ContractView,
    caller: Seq<u8>,
    token: Seq<u8>,
    reserve: Seq<u8>,
)
    ensures
        set_token_step(s, caller, token) matches Ok(t) ==> {
            &&& t.liquidity_token == Some(token)
            &&& t.liquidity_source == s.liquidity_source
            &&& reserve_of(t) == reserve_of(s)
            &&& t.admin == s.admin
            &&& t.contract_address == s.contract_address
            &&& t.rate_change_config == s.rate_change_config
            &&& t.reentrancy_locked == s.reentrancy_locked
            &&& t.lines == s.lines
        },
        set_source_step(s, caller, reserve) matches Ok(t) ==> {
            &&& t.liquidity_source == Some(reserve)
            &&& reserve_of(t) == reserve
            &&& t.liquidity_token == s.liquidity_token
            &&& t.admin == s.admin
            &&& t.contract_address == s.contract_address
            &&& t.rate_change_config == s.rate_change_config
            &&& t.reentrancy_locked == s.reentrancy_locked
            &&& t.lines == s.lines
        },
        set_source_step(s, caller, reserve) matches Ok(t) ==> (set_token_step(t, caller, token) matches Ok(
            u,
        ) && reserve_of(u) == reserve && u.liquidity_token == Some(token)),
{
}

/// With a minimum interval configured, a rate change within the maximum
/// step is refused with `RateChangeTooSoon` while fewer than the interval's
/// seconds have passed since the last rate change, and granted once they have
/// (or when the rate was never changed, or no interval is set).
pub proof fn law_rate_change_interval(
    s: ContractView,
    caller: Seq<u8>,
    borrower: Seq<u8>,
    credit_limit: i128,
    interest_rate_bps: u32,
    risk_score: u32,
    now: u64,
    config: RateChangeConfig,
)
    requires
        s.rate_change_config == Some(config),
        s.lines.contains_key(borrower),
        admin_refusal(s, caller) is None,
        0 <= credit_limit,
        s.lines[borrower].utilized_amount <= credit_limit,
        interest_rate_bps <= MAX_INTEREST_RATE_BPS,
        risk_score <= MAX_RISK_SCORE,
        interest_rate_bps != s.lines[borrower].interest_rate_bps,
        -(config.max_rate_change_bps as int) <= interest_rate_bps as int
            - s.lines[borrower].interest_rate_bps as int <= config.max_rate_change_bps as int,
    ensures
        ({
            let last = s.lines[borrower].last_rate_update_ts;
            (config.rate_change_min_interval > 0 && last != 0 && (now as int)
                < last + config.rate_change_min_interval) ==> update_step(
                s,
                caller,
                borrower,
                credit_limit,
                interest_rate_bps,
                risk_score,
                now,
            ) == Err::<ContractView, CreditError>(CreditError::RateChangeTooSoon)
        }),
        ({
            let last = s.lines[borrower].last_rate_update_ts;
            (config.rate_change_min_interval == 0 || last == 0 || (now as int) >= last
                + config.rate_change_min_interval) ==> (update_step(
                s,
                caller,
                borrower,
                credit_limit,
                interest_rate_bps,
                risk_score,
                now,
            ) matches Ok(t) && t.lines[borrower].interest_rate_bps == interest_rate_bps
                && t.lines[borrower].last_rate_update_ts == now)
        }),
{
}

/// The admin may close any line that is not yet Closed, whatever it owes;
/// the line keeps what it owes.
pub proof fn law_admin_force_close(s: ContractView, borrower: Seq<u8>)
    requires
        s.admin is Some,
        s.lines.contains_key(borrower),
    ensures
        close_step(s, borrower, s.admin->0) matches Ok(t) && t.lines[borrower].status
            == CreditStatus::Closed && t.lines[borrower].utilized_amount
            == s.lines[borrower].utilized_amount,
{
}

/// Suspending, and drawing, change only what they are for: a suspension
/// only the status, a draw only the amount owed.
pub proof fn law_suspend_and_draw_keep_other_fields(
    s: ContractView,
    caller: Seq<u8>,
    borrower: Seq<u8>,
    amount: i128,
    reserve_balance: i128,
)
    ensures
        suspend_step(s, caller, borrower) matches Ok(t) ==> {
            let before = s.lines[borrower];
            let after = t.lines[borrower];
            &&& after.status == CreditStatus::Suspended
            &&& after.utilized_amount == before.utilized_amount
            &&& after.credit_limit == before.credit_limit
            &&& after.interest_rate_bps == before.interest_rate_bps
            &&& after.risk_score == before.risk_score
            &&& after.last_rate_update_ts == before.last_rate_update_ts
        },
        draw_step(s, borrower, amount, reserve_balance) matches Ok(t) ==> {
            let before = s.lines[borrower];
            let after = t.lines[borrower];
            &&& after.status == before.status
            &&& after.credit_limit == before.credit_limit
            &&& after.interest_rate_bps == before.interest_rate_bps
            &&& after.risk_score == before.risk_score
            &&& after.last_rate_update_ts == before.last_rate_update_ts
        },
{
}

/// `init` sets the admin and makes the contract its own liquidity source;
/// setting rate-change limits changes only those limits.
pub proof fn law_init_and_rate_config(
    s: ContractView,
    admin: Seq<u8>,
    caller: Seq<u8>,
    config: RateChangeConfig,
)
    ensures
        init_step(s, admin).admin == Some(admin),
        reserve_of(init_step(s, admin)) == s.contract_address,
        init_step(s, admin).liquidity_token == s.liquidity_token,
        init_step(s, admin).lines == s.lines,
        set_rate_config_step(s, caller, config) matches Ok(t) ==> {
            &&& t.rate_change_config == Some(config)
            &&& t.admin == s.admin
            &&& t.liquidity_token == s.liquidity_token
            &&& t.liquidity_source == s.liquidity_source
            &&& t.reentrancy_locked == s.reentrancy_locked
            &&& t.lines == s.lines
        },
{
}

/// Every event is published under the namespace `credit`, and no two kinds
/// of event share a topic.
pub proof fn law_event_topics_distinct(a: CreditEventKind, b: CreditEventKind)
    ensures
        EVENT_NAMESPACE@ == "credit"@,
        a != b ==> event_kind_name(a)@ != event_kind_name(b)@,
        event_kind_name(a)@ != DRAWN_TOPIC@,
        event_kind_name(a)@ != REPAY_TOPIC@,
        event_kind_name(a)@ != RISK_UPDATED_TOPIC@,
        DRAWN_TOPIC@ != REPAY_TOPIC@,
        DRAWN_TOPIC@ != RISK_UPDATED_TOPIC@,
        REPAY_TOPIC@ != RISK_UPDATED_TOPIC@,
{
    reveal_strlit("credit");
    reveal_strlit("opened");
    reveal_strlit("suspend");
    reveal_strlit("closed");
    reveal_strlit("default");
    reveal_strlit("drawn");
    reveal_strlit("repay");
    reveal_strlit("risk_upd");
    assert("opened"@[0] != "suspend"@[0]);
    assert("opened"@[0] != "closed"@[0]);
    assert("opened"@[0] != "default"@[0]);
    assert("suspend"@[0] != "closed"@[0]);
    assert("suspend"@[0] != "default"@[0]);
    assert("closed"@[0] != "default"@[0]);
    assert("drawn"@[0] != "repay"@[0]);
    assert("drawn"@[0] != "risk_upd"@[0]);
    assert("repay"@[1] != "risk_upd"@[1]);
    assert("drawn"@[0] != "opened"@[0] && "drawn"@[0] != "suspend"@[0] && "drawn"@[0] != "closed"@[0]);
    assert("drawn"@[1] != "default"@[1]);
    assert("repay"@[0] != "opened"@[0] && "repay"@[0] != "suspend"@[0] && "repay"@[0] != "closed"@[0]
        && "repay"@[0] != "default"@[0]);
    assert("risk_upd"@[0] != "opened"@[0] && "risk_upd"@[0] != "suspend"@[0] && "risk_upd"@[0]
        != "closed"@[0] && "risk_upd"@[0] != "default"@[0]);
}

/// Contract error codes are distinct and run from 1 to 12.
pub proof fn law_error_codes_distinct(a: ContractError, b: ContractError)
    ensures
        1 <= error_code(a) <= 12,
        error_code(a) == error_code(b) ==> a == b,
{
}

} // verus!
