//! What the engine asks its host to publish after a transition.
use vstd::prelude::*;
use crate::line::{CreditLine, CreditLineData};
use crate::status::CreditStatus;

verus! {

/// The kind of a lifecycle event.
#[derive(Clone, Copy, Debug, PartialEq, Eq, Structural)]
pub enum EventType {
    Opened,
    Suspend,
    Closed,
    Default,
}

impl EventType {
    /// The topic under which the kind is published.
    pub open spec fn spec_topic(self) -> Seq<char> {
        match self {
            EventType::Opened => "opened"@,
            EventType::Suspend => "suspend"@,
            EventType::Closed => "closed"@,
            EventType::Default => "default"@,
        }
    }

    /// The status that a line has after an event of this kind.
    pub open spec fn spec_status(self) -> CreditStatus {
        match self {
            EventType::Opened => CreditStatus::Active,
            EventType::Suspend => CreditStatus::Suspended,
            EventType::Closed => CreditStatus::Closed,
            EventType::Default => CreditStatus::Defaulted,
        }
    }

    /// The topic under which the kind is published.
    pub fn topic(self) -> (t: &'static str)
        ensures
            t@ == self.spec_topic(),
    {
        match self {
            EventType::Opened => "opened",
            EventType::Suspend => "suspend",
            EventType::Closed => "closed",
            EventType::Default => "default",
        }
    }

    /// The status that a line has after an event of this kind.
    pub fn status(self) -> (s: CreditStatus)
        ensures
            s == self.spec_status(),
    {
        match self {
            EventType::Opened => CreditStatus::Active,
            EventType::Suspend => CreditStatus::Suspended,
            EventType::Closed => CreditStatus::Closed,
            EventType::Default => CreditStatus::Defaulted,
        }
    }
}

/// The mathematical model of an event.
pub enum Notice {
    /// A full snapshot of a line after a lifecycle transition.
    Lifecycle {
        event_type: EventType,
        borrower: Seq<char>,
        status: CreditStatus,
        credit_limit: i128,
        interest_rate_bps: u32,
        risk_score: u32,
    },
    /// Value was drawn: how much, and the utilization that results.
    Draw { borrower: Seq<char>, amount: i128, new_utilized: i128 },
    /// A repayment was applied: how much of it, and the utilization that
    /// results.
    Repayment { borrower: Seq<char>, amount_applied: i128, new_utilized: i128 },
}

impl Notice {
    /// The topic under which the event is published.
    pub open spec fn topic(self) -> Seq<char> {
        match self {
            Notice::Lifecycle { event_type, .. } => event_type.spec_topic(),
            Notice::Draw { .. } => "draw"@,
            Notice::Repayment { .. } => "repayment"@,
        }
    }

    /// The snapshot of `line` under the kind `event_type`.
    pub open spec fn snapshot(event_type: EventType, line: CreditLine) -> Notice {
        Notice::Lifecycle {
            event_type,
            borrower: line.borrower,
            status: line.status,
            credit_limit: line.credit_limit,
            interest_rate_bps: line.interest_rate_bps,
            risk_score: line.risk_score,
        }
    }

    /// The draw of `amount` that left `line`.
    pub open spec fn drawn(line: CreditLine, amount: i128) -> Notice {
        Notice::Draw { borrower: line.borrower, amount, new_utilized: line.utilized_amount }
    }

    /// The repayment of which `amount_applied` was applied and that left
    /// `line`.
    pub open spec fn repaid(line: CreditLine, amount_applied: i128) -> Notice {
        Notice::Repayment {
            borrower: line.borrower,
            amount_applied,
            new_utilized: line.utilized_amount,
        }
    }
}

/// A lifecycle event: a full snapshot of the line, not a delta.
#[derive(Debug, PartialEq, Eq)]
pub struct CreditLineEvent {
    pub event_type: EventType,
    pub borrower: String,
    pub status: CreditStatus,
    pub credit_limit: i128,
    pub interest_rate_bps: u32,
    pub risk_score: u32,
}

impl View for CreditLineEvent {
    type V = Notice;

    open spec fn view(&self) -> Notice {
        Notice::Lifecycle {
            event_type: self.event_type,
            borrower: self.borrower@,
            status: self.status,
            credit_limit: self.credit_limit,
            interest_rate_bps: self.interest_rate_bps,
            risk_score: self.risk_score,
        }
    }
}

impl CreditLineEvent {
    /// The snapshot of `line` under the kind `event_type`.
    pub fn snapshot(event_type: EventType, line: &CreditLineData) -> (event: CreditLineEvent)
        ensures
            event@ == Notice::snapshot(event_type, line@),
    {
        CreditLineEvent {
            event_type,
            borrower: line.borrower.clone(),
            status: line.status,
            credit_limit: line.credit_limit,
            interest_rate_bps: line.interest_rate_bps,
            risk_score: line.risk_score,
        }
    }
}

/// An event for the host to publish.
#[derive(Debug, PartialEq, Eq)]
pub enum CreditEvent {
    /// A line was opened, suspended, closed or defaulted.
    Lifecycle(CreditLineEvent),
    /// Value was drawn. The host moves `amount` from the reserve to the
    /// borrower; the ledger already holds `new_utilized` when it does.
    Draw { borrower: String, amount: i128, new_utilized: i128 },
    /// A repayment was applied.
    Repayment { borrower: String, amount_applied: i128, new_utilized: i128 },
}

impl View for CreditEvent {
    type V = Notice;

    open spec fn view(&self) -> Notice {
        match self {
            CreditEvent::Lifecycle(event) => event@,
            CreditEvent::Draw { borrower, amount, new_utilized } => Notice::Draw {
                borrower: borrower@,
                amount: *amount,
                new_utilized: *new_utilized,
            },
            CreditEvent::Repayment { borrower, amount_applied, new_utilized } => Notice::Repayment {
                borrower: borrower@,
                amount_applied: *amount_applied,
                new_utilized: *new_utilized,
            },
        }
    }
}

impl CreditEvent {
    /// The value that the host has to move to the borrower on this event.
    pub open spec fn spec_transfer(self) -> Option<i128> {
        match self@ {
            Notice::Draw { amount, .. } => Some(amount),
            _ => None,
        }
    }

    /// The topic under which the event is published.
    pub fn topic(&self) -> (t: &'static str)
        ensures
            t@ == self@.topic(),
    {
        match self {
            CreditEvent::Lifecycle(event) => event.event_type.topic(),
            CreditEvent::Draw { .. } => "draw",
            CreditEvent::Repayment { .. } => "repayment",
        }
    }

    /// The value that the host has to move from the reserve to the borrower
    /// on this event, if any.
    pub fn transfer(&self) -> (amount: Option<i128>)
        ensures
            amount == self.spec_transfer(),
    {
        match self {
            CreditEvent::Draw { amount, .. } => Some(*amount),
            _ => None,
        }
    }
}

} // verus!
