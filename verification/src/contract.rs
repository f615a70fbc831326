//! The credit contract: every operation of the protocol, each proved to
//! follow its transition in [`crate::spec`].

use vstd::prelude::*;

use crate::account::{AccountId, duplicate_opt, opt_id};
use crate::book::LineBook;
use crate::error::CreditError;
use crate::events::{
    CreditEventKind, CreditLineEvent, DrawnEvent, EventLog, RepaymentEvent,
    RiskParametersUpdatedEvent, TokenTransfer, drawn_entry, line_entry, publish_credit_line_event,
    publish_drawn_event, publish_repayment_event, publish_risk_parameters_updated,
    repayment_entry, risk_entry, transfer_is, EVENT_NAMESPACE,
};
use crate::spec::{
    ContractView, admin_refusal, applied_repayment, clear_guard_step, close_step, default_step,
    draw_step, follows, init_step, open_step, opened_line, rate_change_refusal, repay_step, reserve_of,
    set_rate_config_step, set_source_step, set_token_step, state_valid, suspend_step,
    update_step, with_line, with_status,
};
use crate::types::{
    CreditLineData, CreditStatus, RateChangeConfig, line_valid, MAX_INTEREST_RATE_BPS,
    MAX_RISK_SCORE,
};

verus! {

/// The state of the credit contract.
pub struct CreditContract {
    contract_address: AccountId,
    admin: Option<AccountId>,
    liquidity_token: Option<AccountId>,
    liquidity_source: Option<AccountId>,
    rate_change_config: Option<RateChangeConfig>,
    reentrancy_locked: bool,
    book: LineBook,
}

impl View for CreditContract {
    type V = ContractView;

    closed spec fn view(&self) -> ContractView {
        ContractView {
            contract_address: self.contract_address@,
            admin: opt_id(self.admin),
            liquidity_token: opt_id(self.liquidity_token),
            liquidity_source: opt_id(self.liquidity_source),
            rate_change_config: self.rate_change_config,
            reentrancy_locked: self.reentrancy_locked,
            lines: self.book@,
        }
    }
}

impl CreditContract {
    /// The contract's internal consistency.
    pub closed spec fn wf(&self) -> bool {
        self.book.wf()
    }

    /// A consistent contract is in a valid state: each line is stored under
    /// its borrower, owes between zero and its limit, and has its rate and
    /// score in range.
    pub proof fn lemma_state_valid(&self)
        requires
            self.wf(),
        ensures
            state_valid(self@),
    {
        self.book.lemma_view_wf();
    }

    /// A freshly deployed contract at `contract_address`, not yet initialized.
    pub fn new(contract_address: AccountId) -> (r: CreditContract)
        ensures
            r.wf(),
            r@ == (ContractView {
                contract_address: contract_address@,
                admin: None,
                liquidity_token: None,
                liquidity_source: None,
                rate_change_config: None,
                reentrancy_locked: false,
                lines: Map::empty(),
            }),
    {
        CreditContract {
            contract_address,
            admin: None,
            liquidity_token: None,
            liquidity_source: None,
            rate_change_config: None,
            reentrancy_locked: false,
            book: LineBook::new(),
        }
    }

    /// A contract with the given configuration and no credit lines yet, to
    /// which stored lines are added by [`CreditContract::load_line`].
    pub fn restore(
        contract_address: AccountId,
        admin: Option<AccountId>,
        liquidity_token: Option<AccountId>,
        liquidity_source: Option<AccountId>,
        rate_change_config: Option<RateChangeConfig>,
        reentrancy_locked: bool,
    ) -> (r: CreditContract)
        ensures
            r.wf(),
            r@ == (ContractView {
                contract_address: contract_address@,
                admin: opt_id(admin),
                liquidity_token: opt_id(liquidity_token),
                liquidity_source: opt_id(liquidity_source),
                rate_change_config,
                reentrancy_locked,
                lines: Map::empty(),
            }),
    {
        CreditContract {
            contract_address,
            admin,
            liquidity_token,
            liquidity_source,
            rate_change_config,
            reentrancy_locked,
            book: LineBook::new(),
        }
    }

    /// Adds a stored line. Refused (returning `false`, changing nothing)
    /// when the line is not valid or its borrower already has a line.
    pub fn load_line(&mut self, line: CreditLineData) -> (r: bool)
        requires
            old(self).wf(),
        ensures
            final(self).wf(),
            r == (line_valid(line@) && !old(self)@.lines.contains_key(line@.borrower)),
            final(self)@ == (if r {
                with_line(old(self)@, line@.borrower, line@)
            } else {
                old(self)@
            }),
    {
        if !(0 <= line.utilized_amount && line.utilized_amount <= line.credit_limit
            && line.interest_rate_bps <= MAX_INTEREST_RATE_BPS
            && line.risk_score <= MAX_RISK_SCORE) {
            return false;
        }
        if self.book.get(&line.borrower).is_some() {
            return false;
        }
        self.book.put(line);
        true
    }

    fn admin_refusal(&self, caller: &AccountId) -> (r: Option<CreditError>)
        ensures
            r == admin_refusal(self@, caller@),
    {
        match &self.admin {
            None => Some(CreditError::AdminNotSet),
            Some(a) => if a.same_as(caller) {
                None
            } else {
                Some(CreditError::NotAdmin)
            },
        }
    }

    /// Sets `admin` as the admin and makes the contract its own liquidity
    /// source.
    pub fn init(&mut self, admin: AccountId)
        requires
            old(self).wf(),
        ensures
            final(self).wf(),
            final(self)@ == init_step(old(self)@, admin@),
    {
        self.admin = Some(admin);
        self.liquidity_source = Some(self.contract_address.duplicate());
    }

    /// Sets the token paid out on draws and collected on repayments
    /// (admin only).
    pub fn set_liquidity_token(&mut self, caller: &AccountId, token_address: AccountId) -> (r: Result<(), CreditError>)
        requires
            old(self).wf(),
        ensures
            final(self).wf(),
            follows(r, set_token_step(old(self)@, caller@, token_address@), old(self)@, final(self)@),
    {
        match self.admin_refusal(caller) {
            Some(e) => Err(e),
            None => {
                self.liquidity_token = Some(token_address);
                Ok(())
            },
        }
    }

    /// Sets the account that funds draws and receives repayments
    /// (admin only).
    pub fn set_liquidity_source(&mut self, caller: &AccountId, reserve_address: AccountId) -> (r: Result<(), CreditError>)
        requires
            old(self).wf(),
        ensures
            final(self).wf(),
            follows(r, set_source_step(old(self)@, caller@, reserve_address@), old(self)@, final(self)@),
    {
        match self.admin_refusal(caller) {
            Some(e) => Err(e),
            None => {
                self.liquidity_source = Some(reserve_address);
                Ok(())
            },
        }
    }

    /// Sets the limits on interest-rate changes (admin only).
    pub fn set_rate_change_config(&mut self, caller: &AccountId, config: RateChangeConfig) -> (r: Result<(), CreditError>)
        requires
            old(self).wf(),
        ensures
            final(self).wf(),
            follows(r, set_rate_config_step(old(self)@, caller@, config), old(self)@, final(self)@),
    {
        match self.admin_refusal(caller) {
            Some(e) => Err(e),
            None => {
                self.rate_change_config = Some(config);
                Ok(())
            },
        }
    }

    /// Opens a credit line for `borrower` with nothing drawn, replacing a
    /// line that is not Active, and publishes the `opened` event to `log`.
    pub fn open_credit_line(
        &mut self,
        borrower: &AccountId,
        credit_limit: i128,
        interest_rate_bps: u32,
        risk_score: u32,
        log: &mut EventLog,
    ) -> (r: Result<(), CreditError>)
        requires
            old(self).wf(),
        ensures
            final(self).wf(),
            follows(
                r,
                open_step(old(self)@, borrower@, credit_limit, interest_rate_bps, risk_score),
                old(self)@,
                final(self)@,
            ),
            final(log)@ == (if r is Ok {
                old(log)@.push(
                    line_entry(
                        CreditEventKind::Opened,
                        opened_line(borrower@, credit_limit, interest_rate_bps, risk_score),
                    ),
                )
            } else {
                old(log)@
            }),
    {
        if credit_limit <= 0 {
            return Err(CreditError::InvalidCreditLimit);
        }
        if interest_rate_bps > MAX_INTEREST_RATE_BPS {
            return Err(CreditError::InterestRateTooHigh);
        }
        if risk_score > MAX_RISK_SCORE {
            return Err(CreditError::RiskScoreOutOfRange);
        }
        match self.book.get(borrower) {
            Some(existing) => if existing.status == CreditStatus::Active {
                return Err(CreditError::ActiveLineExists);
            },
            None => {},
        }
        let line = CreditLineData {
            borrower: borrower.duplicate(),
            credit_limit,
            utilized_amount: 0,
            interest_rate_bps,
            risk_score,
            status: CreditStatus::Active,
            last_rate_update_ts: 0,
        };
        self.book.put(line);
        let kind = CreditEventKind::Opened;
        publish_credit_line_event(
            log,
            (EVENT_NAMESPACE, kind.name()),
            CreditLineEvent {
                event_type: kind,
                borrower: borrower.duplicate(),
                status: CreditStatus::Active,
                credit_limit,
                interest_rate_bps,
                risk_score,
            },
        );
        Ok(())
    }

    /// The account that funds draws and receives repayments.
    fn reserve(&self) -> (r: AccountId)
        ensures
            r@ == reserve_of(self@),
    {
        match &self.liquidity_source {
            Some(r) => r.duplicate(),
            None => self.contract_address.duplicate(),
        }
    }

    /// `borrower` draws `amount` against the line, at ledger time `now`,
    /// and publishes the `drawn` event to `log`.
    ///
    /// `reserve_balance` is the liquidity source's balance of the liquidity
    /// token; it is consulted only when a token is configured. On success the
    /// result is the payout to make from the liquidity source to the
    /// borrower (when a token is configured), and the reentrancy guard stays
    /// set until [`CreditContract::clear_reentrancy_guard`] is called once
    /// the payout is made.
    pub fn draw_credit(
        &mut self,
        borrower: &AccountId,
        amount: i128,
        reserve_balance: i128,
        now: u64,
        log: &mut EventLog,
    ) -> (r: Result<Option<TokenTransfer>, CreditError>)
        requires
            old(self).wf(),
        ensures
            final(self).wf(),
            follows(r, draw_step(old(self)@, borrower@, amount, reserve_balance), old(self)@, final(self)@),
            r matches Ok(payout) ==> match old(self)@.liquidity_token {
                Some(t) => payout matches Some(p) && transfer_is(p, t, reserve_of(old(self)@), borrower@, amount),
                None => payout is None,
            },
            final(log)@ == (if r is Ok {
                old(log)@.push(
                    drawn_entry(borrower@, amount, final(self)@.lines[borrower@].utilized_amount, now),
                )
            } else {
                old(log)@
            }),
    {
        proof { self.lemma_state_valid(); }
        if self.reentrancy_locked {
            return Err(CreditError::Reentrancy);
        }
        if amount <= 0 {
            return Err(CreditError::NonPositiveAmount);
        }
        let line = match self.book.get(borrower) {
            Some(l) => l,
            None => return Err(CreditError::CreditLineNotFound),
        };
        if line.status == CreditStatus::Closed {
            return Err(CreditError::CreditLineClosed);
        }
        if line.status == CreditStatus::Suspended {
            return Err(CreditError::CreditLineSuspended);
        }
        let updated_utilized = match line.utilized_amount.checked_add(amount) {
            Some(u) => u,
            None => return Err(CreditError::Overflow),
        };
        if updated_utilized > line.credit_limit {
            return Err(CreditError::ExceedsCreditLimit);
        }
        let payout = match &self.liquidity_token {
            Some(token) => {
                if reserve_balance < amount {
                    return Err(CreditError::InsufficientLiquidity);
                }
                Some(TokenTransfer {
                    token: token.duplicate(),
                    from: self.reserve(),
                    to: borrower.duplicate(),
                    amount,
                })
            },
            None => None,
        };
        let mut updated = line.duplicate();
        updated.utilized_amount = updated_utilized;
        self.book.put(updated);
        self.reentrancy_locked = true;
        publish_drawn_event(
            log,
            DrawnEvent {
                borrower: borrower.duplicate(),
                amount,
                new_utilized_amount: updated_utilized,
                timestamp: now,
            },
        );
        Ok(payout)
    }

    /// `borrower` repays `amount`, at ledger time `now`, and publishes the
    /// `repay` event to `log`; at most what is owed is applied.
    ///
    /// `allowance` is what the borrower allows the contract to spend of the
    /// liquidity token and `balance` what the borrower holds of it; both are
    /// consulted only when a token is configured and something is applied.
    /// On success the result is the collection to make from the borrower to
    /// the liquidity source (in that case), and the reentrancy guard stays set
    /// until [`CreditContract::clear_reentrancy_guard`] is called once the
    /// collection is made.
    pub fn repay_credit(
        &mut self,
        borrower: &AccountId,
        amount: i128,
        allowance: i128,
        balance: i128,
        now: u64,
        log: &mut EventLog,
    ) -> (r: Result<Option<TokenTransfer>, CreditError>)
        requires
            old(self).wf(),
        ensures
            final(self).wf(),
            follows(r, repay_step(old(self)@, borrower@, amount, allowance, balance), old(self)@, final(self)@),
            r matches Ok(collection) ==> {
                let paid = applied_repayment(old(self)@.lines[borrower@].utilized_amount, amount);
                match old(self)@.liquidity_token {
                    Some(t) => if paid > 0 {
                        collection matches Some(c) && transfer_is(c, t, borrower@, reserve_of(old(self)@), paid)
                    } else {
                        collection is None
                    },
                    None => collection is None,
                }
            },
            final(log)@ == (if r is Ok {
                old(log)@.push(
                    repayment_entry(
                        borrower@,
                        applied_repayment(old(self)@.lines[borrower@].utilized_amount, amount),
                        final(self)@.lines[borrower@].utilized_amount,
                        now,
                    ),
                )
            } else {
                old(log)@
            }),
    {
        proof { self.lemma_state_valid(); }
        if self.reentrancy_locked {
            return Err(CreditError::Reentrancy);
        }
        let line = match self.book.get(borrower) {
            Some(l) => l,
            None => return Err(CreditError::CreditLineNotFound),
        };
        if line.status == CreditStatus::Closed {
            return Err(CreditError::CreditLineClosed);
        }
        if amount <= 0 {
            return Err(CreditError::NonPositiveAmount);
        }
        let paid = if amount > line.utilized_amount {
            line.utilized_amount
        } else {
            amount
        };
        let new_utilized = line.utilized_amount - paid;
        let collection = match &self.liquidity_token {
            Some(token) => if paid > 0 {
                if allowance < paid {
                    return Err(CreditError::InsufficientAllowance);
                }
                if balance < paid {
                    return Err(CreditError::InsufficientBalance);
                }
                Some(TokenTransfer {
                    token: token.duplicate(),
                    from: borrower.duplicate(),
                    to: self.reserve(),
                    amount: paid,
                })
            } else {
                None
            },
            None => None,
        };
        let mut updated = line.duplicate();
        updated.utilized_amount = new_utilized;
        self.book.put(updated);
        self.reentrancy_locked = true;
        publish_repayment_event(
            log,
            RepaymentEvent {
                borrower: borrower.duplicate(),
                amount: paid,
                new_utilized_amount: new_utilized,
                timestamp: now,
            },
        );
        Ok(collection)
    }

    /// Releases the reentrancy guard once the token movement of a draw or
    /// repayment is done.
    pub fn clear_reentrancy_guard(&mut self)
        requires
            old(self).wf(),
        ensures
            final(self).wf(),
            final(self)@ == clear_guard_step(old(self)@),
    {
        self.reentrancy_locked = false;
    }

    /// What a repayment of `amount` by `borrower` would collect: the part of
    /// it that is applied to what is owed, or 0 when the amount is not
    /// positive or the borrower has no line.
    pub fn repayment_due(&self, borrower: &AccountId, amount: i128) -> (r: i128)
        requires
            self.wf(),
        ensures
            r == (if amount > 0 && self@.lines.contains_key(borrower@) {
                applied_repayment(self@.lines[borrower@].utilized_amount, amount)
            } else {
                0
            }),
    {
        if amount <= 0 {
            return 0;
        }
        match self.book.get(borrower) {
            Some(line) => if amount > line.utilized_amount {
                line.utilized_amount
            } else {
                amount
            },
            None => 0,
        }
    }

    /// Whether the rate-change limits refuse moving a rate from `old_rate`,
    /// last changed at `last_ts`, to `new_rate` at time `now`.
    fn rate_change_refusal(&self, old_rate: u32, new_rate: u32, last_ts: u64, now: u64) -> (r: Option<CreditError>)
        ensures
            r == rate_change_refusal(self@.rate_change_config, old_rate, new_rate, last_ts, now),
    {
        match self.rate_change_config {
            None => None,
            Some(c) => {
                if new_rate == old_rate {
                    return None;
                }
                let step = if new_rate > old_rate {
                    new_rate - old_rate
                } else {
                    old_rate - new_rate
                };
                if step > c.max_rate_change_bps {
                    Some(CreditError::RateChangeTooLarge)
                } else if c.rate_change_min_interval > 0 && last_ts != 0 && (now < last_ts || now
                    - last_ts < c.rate_change_min_interval) {
                    Some(CreditError::RateChangeTooSoon)
                } else {
                    None
                }
            },
        }
    }

    /// Sets the limit, rate and score of `borrower`'s line (admin only), at
    /// ledger time `now`, and publishes the `risk_upd` event to `log`.
    pub fn update_risk_parameters(
        &mut self,
        caller: &AccountId,
        borrower: &AccountId,
        credit_limit: i128,
        interest_rate_bps: u32,
        risk_score: u32,
        now: u64,
        log: &mut EventLog,
    ) -> (r: Result<(), CreditError>)
        requires
            old(self).wf(),
        ensures
            final(self).wf(),
            follows(
                r,
                update_step(old(self)@, caller@, borrower@, credit_limit, interest_rate_bps, risk_score, now),
                old(self)@,
                final(self)@,
            ),
            final(log)@ == (if r is Ok {
                old(log)@.push(risk_entry(borrower@, credit_limit, interest_rate_bps, risk_score))
            } else {
                old(log)@
            }),
    {
        proof { self.lemma_state_valid(); }
        if let Some(e) = self.admin_refusal(caller) {
            return Err(e);
        }
        let line = match self.book.get(borrower) {
            Some(l) => l,
            None => return Err(CreditError::CreditLineNotFound),
        };
        if credit_limit < 0 {
            return Err(CreditError::NegativeCreditLimit);
        }
        if credit_limit < line.utilized_amount {
            return Err(CreditError::LimitBelowUtilized);
        }
        if interest_rate_bps > MAX_INTEREST_RATE_BPS {
            return Err(CreditError::RateExceedsMaximum);
        }
        if risk_score > MAX_RISK_SCORE {
            return Err(CreditError::ScoreExceedsMaximum);
        }
        if let Some(e) = self.rate_change_refusal(
            line.interest_rate_bps,
            interest_rate_bps,
            line.last_rate_update_ts,
            now,
        ) {
            return Err(e);
        }
        let mut updated = line.duplicate();
        if interest_rate_bps != line.interest_rate_bps {
            updated.last_rate_update_ts = now;
        }
        updated.credit_limit = credit_limit;
        updated.interest_rate_bps = interest_rate_bps;
        updated.risk_score = risk_score;
        self.book.put(updated);
        publish_risk_parameters_updated(
            log,
            RiskParametersUpdatedEvent {
                borrower: borrower.duplicate(),
                credit_limit,
                interest_rate_bps,
                risk_score,
            },
        );
        Ok(())
    }

    /// Stores `line`, the current line of its borrower, with status
    /// `status`, and publishes the `kind` event that reports it.
    fn set_status(&mut self, line: CreditLineData, status: CreditStatus, kind: CreditEventKind, log: &mut EventLog)
        requires
            old(self).wf(),
            old(self)@.lines.contains_key(line@.borrower),
            old(self)@.lines[line@.borrower] == line@,
        ensures
            final(self).wf(),
            final(self)@ == with_line(old(self)@, line@.borrower, with_status(line@, status)),
            final(log)@ == old(log)@.push(line_entry(kind, final(self)@.lines[line@.borrower])),
    {
        proof { self.lemma_state_valid(); }
        let mut updated = line;
        updated.status = status;
        let event = CreditLineEvent {
            event_type: kind,
            borrower: updated.borrower.duplicate(),
            status,
            credit_limit: updated.credit_limit,
            interest_rate_bps: updated.interest_rate_bps,
            risk_score: updated.risk_score,
        };
        self.book.put(updated);
        publish_credit_line_event(log, (EVENT_NAMESPACE, kind.name()), event);
    }

    /// Suspends `borrower`'s Active line (admin only) and publishes the
    /// `suspend` event to `log`.
    pub fn suspend_credit_line(&mut self, caller: &AccountId, borrower: &AccountId, log: &mut EventLog) -> (r: Result<(), CreditError>)
        requires
            old(self).wf(),
        ensures
            final(self).wf(),
            follows(r, suspend_step(old(self)@, caller@, borrower@), old(self)@, final(self)@),
            final(log)@ == (if r is Ok {
                old(log)@.push(line_entry(CreditEventKind::Suspend, final(self)@.lines[borrower@]))
            } else {
                old(log)@
            }),
    {
        proof { self.lemma_state_valid(); }
        if let Some(e) = self.admin_refusal(caller) {
            return Err(e);
        }
        let line = match self.book.get(borrower) {
            None => return Err(CreditError::CreditLineNotFound),
            Some(l) => {
                if l.status != CreditStatus::Active {
                    return Err(CreditError::NotActive);
                }
                l.duplicate()
            },
        };
        self.set_status(line, CreditStatus::Suspended, CreditEventKind::Suspend, log);
        Ok(())
    }

    /// `closer` closes `borrower`'s line: the admin at any time, the
    /// borrower once nothing is owed; the `closed` event is published to
    /// `log`. A line already Closed is left as it is, and nothing is
    /// published.
    pub fn close_credit_line(&mut self, borrower: &AccountId, closer: &AccountId, log: &mut EventLog) -> (r: Result<(), CreditError>)
        requires
            old(self).wf(),
        ensures
            final(self).wf(),
            follows(r, close_step(old(self)@, borrower@, closer@), old(self)@, final(self)@),
            final(log)@ == (if r is Ok && old(self)@.lines[borrower@].status != CreditStatus::Closed {
                old(log)@.push(line_entry(CreditEventKind::Closed, final(self)@.lines[borrower@]))
            } else {
                old(log)@
            }),
    {
        proof { self.lemma_state_valid(); }
        let is_admin = match &self.admin {
            None => return Err(CreditError::AdminNotSet),
            Some(a) => a.same_as(closer),
        };
        let line = match self.book.get(borrower) {
            None => return Err(CreditError::CreditLineNotFound),
            Some(l) => {
                if l.status == CreditStatus::Closed {
                    return Ok(());
                }
                let is_borrower = closer.same_as(borrower);
                if !(is_admin || (is_borrower && l.utilized_amount == 0)) {
                    if is_borrower {
                        return Err(CreditError::UtilizationNotZero);
                    }
                    return Err(CreditError::Unauthorized);
                }
                l.duplicate()
            },
        };
        self.set_status(line, CreditStatus::Closed, CreditEventKind::Closed, log);
        Ok(())
    }

    /// Marks `borrower`'s line as Defaulted (admin only) and publishes the
    /// `default` event to `log`.
    pub fn default_credit_line(&mut self, caller: &AccountId, borrower: &AccountId, log: &mut EventLog) -> (r: Result<(), CreditError>)
        requires
            old(self).wf(),
        ensures
            final(self).wf(),
            follows(r, default_step(old(self)@, caller@, borrower@), old(self)@, final(self)@),
            final(log)@ == (if r is Ok {
                old(log)@.push(line_entry(CreditEventKind::Default, final(self)@.lines[borrower@]))
            } else {
                old(log)@
            }),
    {
        proof { self.lemma_state_valid(); }
        if let Some(e) = self.admin_refusal(caller) {
            return Err(e);
        }
        let line = match self.book.get(borrower) {
            None => return Err(CreditError::CreditLineNotFound),
            Some(l) => l.duplicate(),
        };
        self.set_status(line, CreditStatus::Defaulted, CreditEventKind::Default, log);
        Ok(())
    }

    /// The credit line of `borrower`, if there is one.
    pub fn get_credit_line(&self, borrower: &AccountId) -> (r: Option<CreditLineData>)
        requires
            self.wf(),
        ensures
            match r {
                Some(l) => self@.lines.contains_key(borrower@) && l@ == self@.lines[borrower@],
                None => !self@.lines.contains_key(borrower@),
            },
    {
        match self.book.get(borrower) {
            Some(l) => Some(l.duplicate()),
            None => None,
        }
    }

    /// The contract's own address.
    pub fn contract_address(&self) -> (r: &AccountId)
        ensures
            r@ == self@.contract_address,
    {
        &self.contract_address
    }

    /// The admin, once set.
    pub fn admin(&self) -> (r: Option<AccountId>)
        ensures
            opt_id(r) == self@.admin,
    {
        duplicate_opt(&self.admin)
    }

    /// The liquidity token, if configured.
    pub fn liquidity_token(&self) -> (r: Option<AccountId>)
        ensures
            opt_id(r) == self@.liquidity_token,
    {
        duplicate_opt(&self.liquidity_token)
    }

    /// The configured liquidity source, if any.
    pub fn liquidity_source(&self) -> (r: Option<AccountId>)
        ensures
            opt_id(r) == self@.liquidity_source,
    {
        duplicate_opt(&self.liquidity_source)
    }

    /// The limits on interest-rate changes, if configured.
    pub fn rate_change_config(&self) -> (r: Option<RateChangeConfig>)
        ensures
            r == self@.rate_change_config,
    {
        self.rate_change_config
    }

    /// Whether a draw or repayment is in progress.
    pub fn reentrancy_locked(&self) -> (r: bool)
        ensures
            r == self@.reentrancy_locked,
    {
        self.reentrancy_locked
    }
}

} // verus!
