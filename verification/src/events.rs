//! What the contract reports: lifecycle events, draw and repayment events,
//! risk-parameter updates, and the token movements a call asks for.

use vstd::prelude::*;

use crate::account::AccountId;
use crate::types::{CreditLineView, CreditStatus};

verus! {

/// The kind of a lifecycle event; its name is the event's second topic.
#[derive(Clone, Copy, Debug, PartialEq, Eq, Structural)]
pub enum CreditEventKind {
    Opened,
    Suspend,
    Closed,
    Default,
}

/// The name of each lifecycle event kind.
pub open spec fn event_kind_name(k: CreditEventKind) -> &'static str {
    match k {
        CreditEventKind::Opened => "opened",
        CreditEventKind::Suspend => "suspend",
        CreditEventKind::Closed => "closed",
        CreditEventKind::Default => "default",
    }
}

impl CreditEventKind {
    /// The event's name (`opened`, `suspend`, `closed` or `default`).
    pub fn name(&self) -> (r: &'static str)
        ensures
            r == event_kind_name(*self),
    {
        match self {
            CreditEventKind::Opened => "opened",
            CreditEventKind::Suspend => "suspend",
            CreditEventKind::Closed => "closed",
            CreditEventKind::Default => "default",
        }
    }
}

/// The first topic of every event the contract publishes.
pub const EVENT_NAMESPACE: &'static str = "credit";

/// Second topic of a draw event.
pub const DRAWN_TOPIC: &'static str = "drawn";

/// Second topic of a repayment event.
pub const REPAY_TOPIC: &'static str = "repay";

/// Second topic of a risk-parameter update event.
pub const RISK_UPDATED_TOPIC: &'static str = "risk_upd";

/// Published on each lifecycle change (opened, suspend, closed, default).
#[derive(Debug, PartialEq, Eq)]
pub struct CreditLineEvent {
    pub event_type: CreditEventKind,
    pub borrower: AccountId,
    pub status: CreditStatus,
    pub credit_limit: i128,
    pub interest_rate_bps: u32,
    pub risk_score: u32,
}

/// A lifecycle event as a mathematical value.
pub struct CreditLineEventView {
    pub event_type: CreditEventKind,
    pub borrower: Seq<u8>,
    pub status: CreditStatus,
    pub credit_limit: i128,
    pub interest_rate_bps: u32,
    pub risk_score: u32,
}

impl View for CreditLineEvent {
    type V = CreditLineEventView;

    open spec fn view(&self) -> CreditLineEventView {
        CreditLineEventView {
            event_type: self.event_type,
            borrower: self.borrower@,
            status: self.status,
            credit_limit: self.credit_limit,
            interest_rate_bps: self.interest_rate_bps,
            risk_score: self.risk_score,
        }
    }
}

/// The `kind` event that reports line `l`.
pub open spec fn line_event(kind: CreditEventKind, l: CreditLineView) -> CreditLineEventView {
    CreditLineEventView {
        event_type: kind,
        borrower: l.borrower,
        status: l.status,
        credit_limit: l.credit_limit,
        interest_rate_bps: l.interest_rate_bps,
        risk_score: l.risk_score,
    }
}

/// Published when a borrower draws.
#[derive(Debug, PartialEq, Eq)]
pub struct DrawnEvent {
    pub borrower: AccountId,
    pub amount: i128,
    pub new_utilized_amount: i128,
    pub timestamp: u64,
}

/// Published when a borrower repays.
#[derive(Debug, PartialEq, Eq)]
pub struct RepaymentEvent {
    pub borrower: AccountId,
    pub amount: i128,
    pub new_utilized_amount: i128,
    pub timestamp: u64,
}

/// A draw or repayment event as a mathematical value.
pub struct AmountEventView {
    pub borrower: Seq<u8>,
    pub amount: i128,
    pub new_utilized_amount: i128,
    pub timestamp: u64,
}

/// The draw or repayment event with these fields.
pub open spec fn amount_event(borrower: Seq<u8>, amount: i128, new_utilized_amount: i128, timestamp: u64) -> AmountEventView {
    AmountEventView { borrower, amount, new_utilized_amount, timestamp }
}

impl View for DrawnEvent {
    type V = AmountEventView;

    open spec fn view(&self) -> AmountEventView {
        amount_event(self.borrower@, self.amount, self.new_utilized_amount, self.timestamp)
    }
}

impl View for RepaymentEvent {
    type V = AmountEventView;

    open spec fn view(&self) -> AmountEventView {
        amount_event(self.borrower@, self.amount, self.new_utilized_amount, self.timestamp)
    }
}

/// Published when the admin updates a line's risk parameters.
#[derive(Debug, PartialEq, Eq)]
pub struct RiskParametersUpdatedEvent {
    pub borrower: AccountId,
    pub credit_limit: i128,
    pub interest_rate_bps: u32,
    pub risk_score: u32,
}

/// A risk-parameter update event as a mathematical value.
pub struct RiskEventView {
    pub borrower: Seq<u8>,
    pub credit_limit: i128,
    pub interest_rate_bps: u32,
    pub risk_score: u32,
}

impl View for RiskParametersUpdatedEvent {
    type V = RiskEventView;

    open spec fn view(&self) -> RiskEventView {
        RiskEventView {
            borrower: self.borrower@,
            credit_limit: self.credit_limit,
            interest_rate_bps: self.interest_rate_bps,
            risk_score: self.risk_score,
        }
    }
}

/// The payload of a published event.
#[derive(Debug, PartialEq, Eq)]
pub enum EventData {
    Line(CreditLineEvent),
    Drawn(DrawnEvent),
    Repayment(RepaymentEvent),
    RiskUpdated(RiskParametersUpdatedEvent),
}

/// An event payload as a mathematical value.
pub enum EventDataView {
    Line(CreditLineEventView),
    Drawn(AmountEventView),
    Repayment(AmountEventView),
    RiskUpdated(RiskEventView),
}

impl View for EventData {
    type V = EventDataView;

    open spec fn view(&self) -> EventDataView {
        match self {
            EventData::Line(e) => EventDataView::Line(e@),
            EventData::Drawn(e) => EventDataView::Drawn(e@),
            EventData::Repayment(e) => EventDataView::Repayment(e@),
            EventData::RiskUpdated(e) => EventDataView::RiskUpdated(e@),
        }
    }
}

/// A published event: its two topics and its payload.
#[derive(Debug, PartialEq, Eq)]
pub struct EventEntry {
    pub namespace: &'static str,
    pub topic: &'static str,
    pub data: EventData,
}

/// A published event as a mathematical value.
pub struct EventEntryView {
    pub namespace: Seq<char>,
    pub topic: Seq<char>,
    pub data: EventDataView,
}

impl View for EventEntry {
    type V = EventEntryView;

    open spec fn view(&self) -> EventEntryView {
        EventEntryView { namespace: self.namespace@, topic: self.topic@, data: self.data@ }
    }
}

/// The entry with topics `namespace` and `topic` and payload `data`.
pub open spec fn entry(namespace: Seq<char>, topic: Seq<char>, data: EventDataView) -> EventEntryView {
    EventEntryView { namespace, topic, data }
}

/// The entry that reports lifecycle event `kind` for line `l`: topics
/// `("credit", kind's name)`.
pub open spec fn line_entry(kind: CreditEventKind, l: CreditLineView) -> EventEntryView {
    entry(EVENT_NAMESPACE@, event_kind_name(kind)@, EventDataView::Line(line_event(kind, l)))
}

/// The entry that reports a draw: topics `("credit", "drawn")`.
pub open spec fn drawn_entry(borrower: Seq<u8>, amount: i128, new_utilized_amount: i128, timestamp: u64) -> EventEntryView {
    entry(
        EVENT_NAMESPACE@,
        DRAWN_TOPIC@,
        EventDataView::Drawn(amount_event(borrower, amount, new_utilized_amount, timestamp)),
    )
}

/// The entry that reports a repayment: topics `("credit", "repay")`.
pub open spec fn repayment_entry(borrower: Seq<u8>, amount: i128, new_utilized_amount: i128, timestamp: u64) -> EventEntryView {
    entry(
        EVENT_NAMESPACE@,
        REPAY_TOPIC@,
        EventDataView::Repayment(amount_event(borrower, amount, new_utilized_amount, timestamp)),
    )
}

/// The entry that reports a risk-parameter update: topics
/// `("credit", "risk_upd")`.
pub open spec fn risk_entry(borrower: Seq<u8>, credit_limit: i128, interest_rate_bps: u32, risk_score: u32) -> EventEntryView {
    entry(
        EVENT_NAMESPACE@,
        RISK_UPDATED_TOPIC@,
        EventDataView::RiskUpdated(RiskEventView { borrower, credit_limit, interest_rate_bps, risk_score }),
    )
}

/// The events published so far, oldest first.
pub struct EventLog {
    entries: Vec<EventEntry>,
}

impl View for EventLog {
    type V = Seq<EventEntryView>;

    closed spec fn view(&self) -> Seq<EventEntryView> {
        self.entries@.map_values(|e: EventEntry| e@)
    }
}

impl EventLog {
    /// A log with no events.
    pub fn new() -> (r: EventLog)
        ensures
            r@ == Seq::<EventEntryView>::empty(),
    {
        let r = EventLog { entries: Vec::new() };
        assert(r@ =~= Seq::<EventEntryView>::empty());
        r
    }

    /// The events published so far, oldest first.
    pub fn entries(&self) -> (r: &Vec<EventEntry>)
        ensures
            r@.map_values(|e: EventEntry| e@) == self@,
    {
        &self.entries
    }

    /// The events published so far, oldest first, leaving the log empty.
    pub fn drain(&mut self) -> (r: Vec<EventEntry>)
        ensures
            r@.map_values(|e: EventEntry| e@) == old(self)@,
            final(self)@ == Seq::<EventEntryView>::empty(),
    {
        let mut r: Vec<EventEntry> = Vec::new();
        std::mem::swap(&mut r, &mut self.entries);
        assert(self@ =~= Seq::<EventEntryView>::empty());
        r
    }

    fn push(&mut self, e: EventEntry)
        ensures
            final(self)@ == old(self)@.push(e@),
    {
        self.entries.push(e);
        assert(self@ =~= old(self)@.push(e@));
    }
}

/// Publishes a lifecycle event under the topics `topic`.
pub fn publish_credit_line_event(log: &mut EventLog, topic: (&'static str, &'static str), event: CreditLineEvent)
    ensures
        final(log)@ == old(log)@.push(entry(topic.0@, topic.1@, EventDataView::Line(event@))),
{
    log.push(EventEntry { namespace: topic.0, topic: topic.1, data: EventData::Line(event) });
}

/// Publishes a draw event under `("credit", "drawn")`.
pub fn publish_drawn_event(log: &mut EventLog, event: DrawnEvent)
    ensures
        final(log)@ == old(log)@.push(entry(EVENT_NAMESPACE@, DRAWN_TOPIC@, EventDataView::Drawn(event@))),
{
    log.push(EventEntry { namespace: EVENT_NAMESPACE, topic: DRAWN_TOPIC, data: EventData::Drawn(event) });
}

/// Publishes a repayment event under `("credit", "repay")`.
pub fn publish_repayment_event(log: &mut EventLog, event: RepaymentEvent)
    ensures
        final(log)@ == old(log)@.push(entry(EVENT_NAMESPACE@, REPAY_TOPIC@, EventDataView::Repayment(event@))),
{
    log.push(EventEntry { namespace: EVENT_NAMESPACE, topic: REPAY_TOPIC, data: EventData::Repayment(event) });
}

/// Publishes a risk-parameter update event under `("credit", "risk_upd")`.
pub fn publish_risk_parameters_updated(log: &mut EventLog, event: RiskParametersUpdatedEvent)
    ensures
        final(log)@ == old(log)@.push(
            entry(EVENT_NAMESPACE@, RISK_UPDATED_TOPIC@, EventDataView::RiskUpdated(event@)),
        ),
{
    log.push(
        EventEntry { namespace: EVENT_NAMESPACE, topic: RISK_UPDATED_TOPIC, data: EventData::RiskUpdated(event) },
    );
}

/// A movement of `amount` units of the token contract `token` from `from`
/// to `to`.
#[derive(Debug, PartialEq, Eq)]
pub struct TokenTransfer {
    pub token: AccountId,
    pub from: AccountId,
    pub to: AccountId,
    pub amount: i128,
}

/// Whether `t` moves `amount` of `token` from `from` to `to`.
pub open spec fn transfer_is(t: TokenTransfer, token: Seq<u8>, from: Seq<u8>, to: Seq<u8>, amount: i128) -> bool {
    &&& t.token@ == token
    &&& t.from@ == from
    &&& t.to@ == to
    &&& t.amount == amount
}

} // verus!
