//! One borrower's credit line: its record, its mathematical model, and the
//! transitions that a single record can take.
use vstd::prelude::*;
use crate::status::{CreditError, CreditStatus};

verus! {

/// The mathematical model of a credit line.
pub struct CreditLine {
    pub borrower: Seq<char>,
    pub credit_limit: i128,
    pub utilized_amount: i128,
    pub interest_rate_bps: u32,
    pub risk_score: u32,
    pub status: CreditStatus,
}

/// Whether an integer can be held as an amount.
pub open spec fn representable(v: int) -> bool {
    i128::MIN <= v <= i128::MAX
}

impl CreditLine {
    /// The accounting invariant: utilization is never negative and never
    /// above the limit.
    pub open spec fn within_limit(self) -> bool {
        0 <= self.utilized_amount <= self.credit_limit
    }

    /// What is left to draw.
    pub open spec fn headroom(self) -> int {
        self.credit_limit - self.utilized_amount
    }

    /// A fresh line: active, with nothing drawn.
    pub open spec fn opened(
        borrower: Seq<char>,
        credit_limit: i128,
        interest_rate_bps: u32,
        risk_score: u32,
    ) -> CreditLine {
        CreditLine {
            borrower,
            credit_limit,
            utilized_amount: 0,
            interest_rate_bps,
            risk_score,
            status: CreditStatus::Active,
        }
    }

    /// Opening a line for `borrower`. A negative limit is refused: no line
    /// ever has a limit below zero.
    pub open spec fn open(
        borrower: Seq<char>,
        credit_limit: i128,
        interest_rate_bps: u32,
        risk_score: u32,
    ) -> Result<CreditLine, CreditError> {
        if credit_limit < 0 {
            Err(CreditError::InvalidAmount)
        } else {
            Ok(CreditLine::opened(borrower, credit_limit, interest_rate_bps, risk_score))
        }
    }

    /// The line with another utilization.
    pub open spec fn with_utilized(self, utilized_amount: i128) -> CreditLine {
        CreditLine { utilized_amount, ..self }
    }

    /// The line in another lifecycle state.
    pub open spec fn with_status(self, status: CreditStatus) -> CreditLine {
        CreditLine { status, ..self }
    }

    /// Drawing `amount`: the line must be active, the amount positive and
    /// covered by the headroom. A headroom that no amount can hold is an
    /// overflow.
    pub open spec fn draw(self, amount: i128) -> Result<CreditLine, CreditError> {
        if !self.status.allows_draw() {
            Err(CreditError::InvalidCreditStatus)
        } else if amount <= 0 {
            Err(CreditError::InvalidAmount)
        } else if !representable(self.headroom()) {
            Err(CreditError::Overflow)
        } else if amount > self.headroom() {
            Err(CreditError::InsufficientUtilization)
        } else {
            Ok(self.with_utilized((self.utilized_amount + amount) as i128))
        }
    }

    /// The part of a repayment that is applied: never more than is owed.
    pub open spec fn applied(self, amount: i128) -> i128 {
        if amount > self.utilized_amount {
            self.utilized_amount
        } else {
            amount
        }
    }

    /// Repaying `amount`: the line must be active or suspended and the
    /// amount positive. What exceeds the utilization is discarded.
    pub open spec fn repay(self, amount: i128) -> Result<CreditLine, CreditError> {
        if !self.status.allows_repay() {
            Err(CreditError::InvalidCreditStatus)
        } else if amount <= 0 {
            Err(CreditError::InvalidAmount)
        } else {
            Ok(self.with_utilized((self.utilized_amount - self.applied(amount)) as i128))
        }
    }

    /// New underwriting parameters. A limit below what is already drawn is
    /// refused, so that the accounting invariant survives.
    pub open spec fn reparameterize(
        self,
        credit_limit: i128,
        interest_rate_bps: u32,
        risk_score: u32,
    ) -> Result<CreditLine, CreditError> {
        if credit_limit < self.utilized_amount {
            Err(CreditError::InsufficientUtilization)
        } else {
            Ok(CreditLine { credit_limit, interest_rate_bps, risk_score, ..self })
        }
    }
}

/// The record of one borrower's credit line.
#[derive(Debug, PartialEq, Eq)]
pub struct CreditLineData {
    pub borrower: String,
    pub credit_limit: i128,
    pub utilized_amount: i128,
    pub interest_rate_bps: u32,
    pub risk_score: u32,
    pub status: CreditStatus,
}

impl View for CreditLineData {
    type V = CreditLine;

    open spec fn view(&self) -> CreditLine {
        CreditLine {
            borrower: self.borrower@,
            credit_limit: self.credit_limit,
            utilized_amount: self.utilized_amount,
            interest_rate_bps: self.interest_rate_bps,
            risk_score: self.risk_score,
            status: self.status,
        }
    }
}

/// Whether the result of a transition is the one that the model gives.
pub open spec fn agrees(
    got: Result<CreditLineData, CreditError>,
    model: Result<CreditLine, CreditError>,
) -> bool {
    match got {
        Ok(line) => model == Ok::<CreditLine, CreditError>(line@),
        Err(e) => model == Err::<CreditLine, CreditError>(e),
    }
}

impl Clone for CreditLineData {
    fn clone(&self) -> (copy: CreditLineData)
        ensures
            copy == *self,
    {
        CreditLineData {
            borrower: self.borrower.clone(),
            credit_limit: self.credit_limit,
            utilized_amount: self.utilized_amount,
            interest_rate_bps: self.interest_rate_bps,
            risk_score: self.risk_score,
            status: self.status,
        }
    }
}

impl CreditLineData {
    /// A fresh line for `borrower`: active, with nothing drawn. Fails with
    /// `InvalidAmount` if the limit is negative.
    pub fn open(borrower: &String, credit_limit: i128, interest_rate_bps: u32, risk_score: u32) -> (r: Result<
        CreditLineData,
        CreditError,
    >)
        ensures
            agrees(r, CreditLine::open(borrower@, credit_limit, interest_rate_bps, risk_score)),
    {
        if credit_limit < 0 {
            return Err(CreditError::InvalidAmount);
        }
        Ok(
            CreditLineData {
                borrower: borrower.clone(),
                credit_limit,
                utilized_amount: 0,
                interest_rate_bps,
                risk_score,
                status: CreditStatus::Active,
            },
        )
    }

    /// The record after `amount` has been drawn, or why it cannot be.
    pub fn draw(&self, amount: i128) -> (r: Result<CreditLineData, CreditError>)
        ensures
            agrees(r, self@.draw(amount)),
    {
        if self.status != CreditStatus::Active {
            return Err(CreditError::InvalidCreditStatus);
        }
        if amount <= 0 {
            return Err(CreditError::InvalidAmount);
        }
        let headroom: i128 = match self.credit_limit.checked_sub(self.utilized_amount) {
            Some(h) => h,
            None => {
                return Err(CreditError::Overflow);
            },
        };
        if amount > headroom {
            return Err(CreditError::InsufficientUtilization);
        }
        let mut next = self.clone();
        next.utilized_amount = self.utilized_amount + amount;
        Ok(next)
    }

    /// The record after a repayment of `amount`, or why it is refused.
    pub fn repay(&self, amount: i128) -> (r: Result<CreditLineData, CreditError>)
        ensures
            agrees(r, self@.repay(amount)),
    {
        if self.status != CreditStatus::Active && self.status != CreditStatus::Suspended {
            return Err(CreditError::InvalidCreditStatus);
        }
        if amount <= 0 {
            return Err(CreditError::InvalidAmount);
        }
        let applied: i128 = if amount > self.utilized_amount {
            self.utilized_amount
        } else {
            amount
        };
        let mut next = self.clone();
        next.utilized_amount = self.utilized_amount - applied;
        Ok(next)
    }

    /// The record in another lifecycle state.
    pub fn with_status(&self, status: CreditStatus) -> (next: CreditLineData)
        ensures
            next@ == self@.with_status(status),
    {
        let mut next = self.clone();
        next.status = status;
        next
    }

    /// The record under new underwriting parameters, or why they are refused.
    pub fn reparameterize(&self, credit_limit: i128, interest_rate_bps: u32, risk_score: u32) -> (r:
        Result<CreditLineData, CreditError>)
        ensures
            agrees(r, self@.reparameterize(credit_limit, interest_rate_bps, risk_score)),
    {
        if credit_limit < self.utilized_amount {
            return Err(CreditError::InsufficientUtilization);
        }
        let mut next = self.clone();
        next.credit_limit = credit_limit;
        next.interest_rate_bps = interest_rate_bps;
        next.risk_score = risk_score;
        Ok(next)
    }
}

} // verus!
