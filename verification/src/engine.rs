//! The transition engine: who may ask for what, and what each request does
//! to the ledger.
use vstd::prelude::*;
use crate::event::{CreditEvent, CreditLineEvent, EventType, Notice};
use crate::ledger::{Ledger, LedgerState, model_of};
use crate::line::{CreditLine, CreditLineData, agrees};
use crate::status::{CreditError, CreditStatus};

verus! {

/// The operations of the engine.
#[derive(Clone, Copy, Debug, PartialEq, Eq, Structural)]
pub enum Operation {
    Open,
    Draw,
    Repay,
    Suspend,
    Close,
    Default,
    UpdateParameters,
    Get,
}

/// The proof of identity that an operation asks of its caller.
#[derive(Clone, Copy, Debug, PartialEq, Eq, Structural)]
pub enum RequiredProof {
    /// Anyone may ask.
    Anyone,
    /// The caller is the administrator.
    Admin,
    /// The caller is the borrower whose line the operation names.
    Borrower,
    /// The caller is the administrator, or the borrower with nothing drawn.
    AdminOrSettledBorrower,
}

impl Operation {
    /// The proof that the operation asks of its caller.
    pub open spec fn spec_required_proof(self) -> RequiredProof {
        match self {
            Operation::Open => RequiredProof::Admin,
            Operation::Draw => RequiredProof::Borrower,
            Operation::Repay => RequiredProof::Borrower,
            Operation::Suspend => RequiredProof::Admin,
            Operation::Close => RequiredProof::AdminOrSettledBorrower,
            Operation::Default => RequiredProof::Admin,
            Operation::UpdateParameters => RequiredProof::Admin,
            Operation::Get => RequiredProof::Anyone,
        }
    }

    /// The proof that the operation asks of its caller.
    pub fn required_proof(self) -> (proof_needed: RequiredProof)
        ensures
            proof_needed == self.spec_required_proof(),
    {
        match self {
            Operation::Open => RequiredProof::Admin,
            Operation::Draw => RequiredProof::Borrower,
            Operation::Repay => RequiredProof::Borrower,
            Operation::Suspend => RequiredProof::Admin,
            Operation::Close => RequiredProof::AdminOrSettledBorrower,
            Operation::Default => RequiredProof::Admin,
            Operation::UpdateParameters => RequiredProof::Admin,
            Operation::Get => RequiredProof::Anyone,
        }
    }
}

/// A request to change one borrower's line, as the model sees it.
pub enum Request {
    Open { borrower: Seq<char>, credit_limit: i128, interest_rate_bps: u32, risk_score: u32 },
    Draw { borrower: Seq<char>, amount: i128 },
    Repay { borrower: Seq<char>, amount: i128 },
    Suspend { borrower: Seq<char> },
    Close { borrower: Seq<char> },
    Default { borrower: Seq<char> },
    UpdateParameters {
        borrower: Seq<char>,
        credit_limit: i128,
        interest_rate_bps: u32,
        risk_score: u32,
    },
}

impl Request {
    /// The operation that is asked for.
    pub open spec fn operation(self) -> Operation {
        match self {
            Request::Open { .. } => Operation::Open,
            Request::Draw { .. } => Operation::Draw,
            Request::Repay { .. } => Operation::Repay,
            Request::Suspend { .. } => Operation::Suspend,
            Request::Close { .. } => Operation::Close,
            Request::Default { .. } => Operation::Default,
            Request::UpdateParameters { .. } => Operation::UpdateParameters,
        }
    }

    /// The borrower whose line is meant.
    pub open spec fn borrower(self) -> Seq<char> {
        match self {
            Request::Open { borrower, .. } => borrower,
            Request::Draw { borrower, .. } => borrower,
            Request::Repay { borrower, .. } => borrower,
            Request::Suspend { borrower } => borrower,
            Request::Close { borrower } => borrower,
            Request::Default { borrower } => borrower,
            Request::UpdateParameters { borrower, .. } => borrower,
        }
    }
}

impl LedgerState {
    /// Whether `caller` holds the proof that `operation` asks for on the
    /// line of `borrower`. A borrower may close a line only while nothing is
    /// drawn on it.
    pub open spec fn permits(self, operation: Operation, caller: Seq<char>, borrower: Seq<char>) -> bool {
        match operation.spec_required_proof() {
            RequiredProof::Anyone => true,
            RequiredProof::Admin => self.is_admin(caller),
            RequiredProof::Borrower => caller == borrower,
            RequiredProof::AdminOrSettledBorrower => self.is_admin(caller) || (caller == borrower
                && (self.has_line(borrower) ==> self.lines[borrower].utilized_amount == 0)),
        }
    }

    /// What `request` makes of the record that its borrower has, if any.
    /// Opening needs no record and replaces the one that is there, but
    /// refuses a negative limit; every other request needs a record.
    pub open spec fn transform(line: Option<CreditLine>, request: Request) -> Result<CreditLine, CreditError> {
        match (request, line) {
            (
                Request::Open { borrower, credit_limit, interest_rate_bps, risk_score },
                _,
            ) => CreditLine::open(borrower, credit_limit, interest_rate_bps, risk_score),
            (_, None) => Err(CreditError::CreditLineNotFound),
            (Request::Draw { amount, .. }, Some(line)) => line.draw(amount),
            (Request::Repay { amount, .. }, Some(line)) => line.repay(amount),
            (Request::Suspend { .. }, Some(line)) => Ok(line.with_status(CreditStatus::Suspended)),
            (Request::Close { .. }, Some(line)) => Ok(line.with_status(CreditStatus::Closed)),
            (Request::Default { .. }, Some(line)) => Ok(line.with_status(CreditStatus::Defaulted)),
            (
                Request::UpdateParameters { credit_limit, interest_rate_bps, risk_score, .. },
                Some(line),
            ) => line.reparameterize(credit_limit, interest_rate_bps, risk_score),
        }
    }

    /// The record that `request` by `caller` leaves for its borrower, or the
    /// error it fails with. The caller's proof is checked first, then that
    /// the record exists, then what the transition itself asks for.
    pub open spec fn decide(self, caller: Seq<char>, request: Request) -> Result<CreditLine, CreditError> {
        if !self.permits(request.operation(), caller, request.borrower()) {
            Err(CreditError::Unauthorized)
        } else {
            Self::transform(self.line(request.borrower()), request)
        }
    }

    /// The ledger after `request` by `caller`: one record replaced on
    /// success, nothing changed on failure.
    pub open spec fn after(self, caller: Seq<char>, request: Request) -> LedgerState {
        match self.decide(caller, request) {
            Ok(line) => self.with_line(line),
            Err(_) => self,
        }
    }

    /// The event that `request` publishes when it leaves `next` as the
    /// record. A change of parameters publishes none.
    pub open spec fn notice(self, request: Request, next: CreditLine) -> Option<Notice> {
        match request {
            Request::Open { .. } => Some(Notice::snapshot(EventType::Opened, next)),
            Request::Draw { amount, .. } => Some(Notice::drawn(next, amount)),
            Request::Repay { borrower, amount } => Some(
                Notice::repaid(next, self.lines[borrower].applied(amount)),
            ),
            Request::Suspend { .. } => Some(Notice::snapshot(EventType::Suspend, next)),
            Request::Close { .. } => Some(Notice::snapshot(EventType::Closed, next)),
            Request::Default { .. } => Some(Notice::snapshot(EventType::Default, next)),
            Request::UpdateParameters { .. } => None,
        }
    }

    /// What `request` by `caller` returns: the event to publish, or the
    /// error.
    pub open spec fn answer(self, caller: Seq<char>, request: Request) -> Result<Option<Notice>, CreditError> {
        match self.decide(caller, request) {
            Ok(line) => Ok(self.notice(request, line)),
            Err(e) => Err(e),
        }
    }
}

/// Whether what an operation returned is what the model answers.
pub open spec fn reports(
    got: Result<CreditEvent, CreditError>,
    answer: Result<Option<Notice>, CreditError>,
) -> bool {
    match got {
        Ok(event) => answer == Ok::<Option<Notice>, CreditError>(Some(event@)),
        Err(e) => answer == Err::<Option<Notice>, CreditError>(e),
    }
}

/// The credit-line engine.
///
/// Every operation checks the caller's proof first, then that the record
/// exists, then what the transition itself asks for. On success it replaces
/// the borrower's record in the ledger and returns the event to publish; on
/// failure it returns the first error met and leaves the ledger as it was.
pub struct Credit;

impl Credit {
    /// Sets the engine up with its administrator and the asset of its
    /// reserve. Calling it again replaces both; the records stay.
    pub fn init(ledger: &mut Ledger, admin: &String, reserve_asset: &String)
        ensures
            final(ledger)@ == old(ledger)@.with_roles(admin@, reserve_asset@),
    {
        ledger.set_roles(admin, reserve_asset);
    }

    /// Whether `caller` holds the proof that `operation` asks for on the
    /// line of `borrower`.
    pub fn permits(ledger: &Ledger, operation: Operation, caller: &String, borrower: &String) -> (yes: bool)
        ensures
            yes == ledger@.permits(operation, caller@, borrower@),
    {
        match operation.required_proof() {
            RequiredProof::Anyone => true,
            RequiredProof::Admin => ledger.is_admin(caller),
            RequiredProof::Borrower => *caller == *borrower,
            RequiredProof::AdminOrSettledBorrower => {
                if ledger.is_admin(caller) {
                    true
                } else if *caller == *borrower {
                    match ledger.get(borrower) {
                        Some(line) => line.utilized_amount == 0,
                        None => true,
                    }
                } else {
                    false
                }
            },
        }
    }

    /// Opens a line for `borrower`: active, with nothing drawn. A borrower
    /// who already has a line gets a fresh one in its place.
    ///
    /// Fails with `Unauthorized` unless the caller is the administrator, and
    /// with `InvalidAmount` if the limit is negative.
    pub fn open_credit_line(
        ledger: &mut Ledger,
        caller: &String,
        borrower: &String,
        credit_limit: i128,
        interest_rate_bps: u32,
        risk_score: u32,
    ) -> (r: Result<CreditEvent, CreditError>)
        ensures
            ({
                let request = Request::Open {
                    borrower: borrower@,
                    credit_limit,
                    interest_rate_bps,
                    risk_score,
                };
                &&& final(ledger)@ == old(ledger)@.after(caller@, request)
                &&& reports(r, old(ledger)@.answer(caller@, request))
            }),
    {
        if !Self::permits(ledger, Operation::Open, caller, borrower) {
            return Err(CreditError::Unauthorized);
        }
        let line = match CreditLineData::open(borrower, credit_limit, interest_rate_bps, risk_score) {
            Ok(line) => line,
            Err(e) => {
                return Err(e);
            },
        };
        let event = CreditLineEvent::snapshot(EventType::Opened, &line);
        ledger.put(line);
        Ok(CreditEvent::Lifecycle(event))
    }

    /// Draws `amount` on the line of `borrower`. When the event that tells
    /// the host to move the value is returned, the ledger already holds the
    /// new utilization.
    ///
    /// Fails with `Unauthorized` unless the caller is the borrower, with
    /// `CreditLineNotFound` if the borrower has no line, with
    /// `InvalidCreditStatus` unless the line is active, with `InvalidAmount`
    /// unless the amount is positive, with `Overflow` if what is left of the
    /// limit does not fit a signed 128-bit integer, and with
    /// `InsufficientUtilization` if the amount is more than what is left.
    pub fn draw_credit(ledger: &mut Ledger, caller: &String, borrower: &String, amount: i128) -> (r: Result<
        CreditEvent,
        CreditError,
    >)
        ensures
            ({
                let request = Request::Draw { borrower: borrower@, amount };
                &&& final(ledger)@ == old(ledger)@.after(caller@, request)
                &&& reports(r, old(ledger)@.answer(caller@, request))
            }),
    {
        if !Self::permits(ledger, Operation::Draw, caller, borrower) {
            return Err(CreditError::Unauthorized);
        }
        let line = match ledger.get(borrower) {
            Some(line) => line,
            None => {
                return Err(CreditError::CreditLineNotFound);
            },
        };
        proof {
            ledger.lemma_keyed();
        }
        let next = match line.draw(amount) {
            Ok(next) => next,
            Err(e) => {
                return Err(e);
            },
        };
        let event = CreditEvent::Draw {
            borrower: next.borrower.clone(),
            amount,
            new_utilized: next.utilized_amount,
        };
        ledger.put(next);
        Ok(event)
    }

    /// Repays `amount` on the line of `borrower`. No more than is owed is
    /// applied; the rest is discarded.
    ///
    /// Fails with `Unauthorized` unless the caller is the borrower, with
    /// `CreditLineNotFound` if the borrower has no line, with
    /// `InvalidCreditStatus` unless the line is active or suspended, and
    /// with `InvalidAmount` unless the amount is positive.
    pub fn repay_credit(ledger: &mut Ledger, caller: &String, borrower: &String, amount: i128) -> (r: Result<
        CreditEvent,
        CreditError,
    >)
        ensures
            ({
                let request = Request::Repay { borrower: borrower@, amount };
                &&& final(ledger)@ == old(ledger)@.after(caller@, request)
                &&& reports(r, old(ledger)@.answer(caller@, request))
            }),
    {
        if !Self::permits(ledger, Operation::Repay, caller, borrower) {
            return Err(CreditError::Unauthorized);
        }
        let line = match ledger.get(borrower) {
            Some(line) => line,
            None => {
                return Err(CreditError::CreditLineNotFound);
            },
        };
        proof {
            ledger.lemma_keyed();
        }
        let next = match line.repay(amount) {
            Ok(next) => next,
            Err(e) => {
                return Err(e);
            },
        };
        let event = CreditEvent::Repayment {
            borrower: next.borrower.clone(),
            amount_applied: line.utilized_amount - next.utilized_amount,
            new_utilized: next.utilized_amount,
        };
        ledger.put(next);
        Ok(event)
    }

    /// Replaces the limit, the interest rate and the risk score of the line
    /// of `borrower`. Utilization and status stay. No event is published.
    ///
    /// Fails with `Unauthorized` unless the caller is the administrator,
    /// with `CreditLineNotFound` if the borrower has no line, and with
    /// `InsufficientUtilization` if the new limit is below what is drawn.
    pub fn update_risk_parameters(
        ledger: &mut Ledger,
        caller: &String,
        borrower: &String,
        credit_limit: i128,
        interest_rate_bps: u32,
        risk_score: u32,
    ) -> (r: Result<(), CreditError>)
        ensures
            ({
                let request = Request::UpdateParameters {
                    borrower: borrower@,
                    credit_limit,
                    interest_rate_bps,
                    risk_score,
                };
                &&& final(ledger)@ == old(ledger)@.after(caller@, request)
                &&& match r {
                    Ok(_) => old(ledger)@.decide(caller@, request) is Ok,
                    Err(e) => old(ledger)@.decide(caller@, request) == Err::<CreditLine, CreditError>(e),
                }
            }),
    {
        if !Self::permits(ledger, Operation::UpdateParameters, caller, borrower) {
            return Err(CreditError::Unauthorized);
        }
        let line = match ledger.get(borrower) {
            Some(line) => line,
            None => {
                return Err(CreditError::CreditLineNotFound);
            },
        };
        proof {
            ledger.lemma_keyed();
        }
        let next = match line.reparameterize(credit_limit, interest_rate_bps, risk_score) {
            Ok(next) => next,
            Err(e) => {
                return Err(e);
            },
        };
        ledger.put(next);
        Ok(())
    }

    /// Suspends the line of `borrower`, whatever state it is in, a closed or
    /// defaulted one too.
    ///
    /// Fails with `Unauthorized` unless the caller is the administrator, and
    /// with `CreditLineNotFound` if the borrower has no line.
    pub fn suspend_credit_line(ledger: &mut Ledger, caller: &String, borrower: &String) -> (r: Result<
        CreditEvent,
        CreditError,
    >)
        ensures
            ({
                let request = Request::Suspend { borrower: borrower@ };
                &&& final(ledger)@ == old(ledger)@.after(caller@, request)
                &&& reports(r, old(ledger)@.answer(caller@, request))
            }),
    {
        if !Self::permits(ledger, Operation::Suspend, caller, borrower) {
            return Err(CreditError::Unauthorized);
        }
        Self::mark(ledger, borrower, EventType::Suspend)
    }

    /// Closes the line of `borrower`, whatever state it is in, a defaulted
    /// one too.
    ///
    /// Fails with `Unauthorized` unless the caller is the administrator, or
    /// the borrower while nothing is drawn, and with `CreditLineNotFound` if
    /// the borrower has no line.
    pub fn close_credit_line(ledger: &mut Ledger, caller: &String, borrower: &String) -> (r: Result<
        CreditEvent,
        CreditError,
    >)
        ensures
            ({
                let request = Request::Close { borrower: borrower@ };
                &&& final(ledger)@ == old(ledger)@.after(caller@, request)
                &&& reports(r, old(ledger)@.answer(caller@, request))
            }),
    {
        if !Self::permits(ledger, Operation::Close, caller, borrower) {
            return Err(CreditError::Unauthorized);
        }
        Self::mark(ledger, borrower, EventType::Closed)
    }

    /// Marks the line of `borrower` as defaulted, whatever state it is in, a
    /// closed one too.
    ///
    /// Fails with `Unauthorized` unless the caller is the administrator, and
    /// with `CreditLineNotFound` if the borrower has no line.
    pub fn default_credit_line(ledger: &mut Ledger, caller: &String, borrower: &String) -> (r: Result<
        CreditEvent,
        CreditError,
    >)
        ensures
            ({
                let request = Request::Default { borrower: borrower@ };
                &&& final(ledger)@ == old(ledger)@.after(caller@, request)
                &&& reports(r, old(ledger)@.answer(caller@, request))
            }),
    {
        if !Self::permits(ledger, Operation::Default, caller, borrower) {
            return Err(CreditError::Unauthorized);
        }
        Self::mark(ledger, borrower, EventType::Default)
    }

    /// The record of `borrower`, or `None` if there is none. Anyone may ask.
    pub fn get_credit_line(ledger: &Ledger, borrower: &String) -> (line: Option<CreditLineData>)
        ensures
            model_of(line) == ledger@.line(borrower@),
    {
        ledger.get(borrower)
    }

    /// Puts the line of `borrower` into the status that belongs to `kind`
    /// and returns its snapshot.
    fn mark(ledger: &mut Ledger, borrower: &String, kind: EventType) -> (r: Result<CreditEvent, CreditError>)
        ensures
            match r {
                Ok(event) => {
                    &&& old(ledger)@.has_line(borrower@)
                    &&& final(ledger)@ == old(ledger)@.with_line(
                        old(ledger)@.lines[borrower@].with_status(kind.spec_status()),
                    )
                    &&& event@ == Notice::snapshot(
                        kind,
                        old(ledger)@.lines[borrower@].with_status(kind.spec_status()),
                    )
                },
                Err(e) => {
                    &&& e == CreditError::CreditLineNotFound
                    &&& !old(ledger)@.has_line(borrower@)
                    &&& final(ledger)@ == old(ledger)@
                },
            },
    {
        let line = match ledger.get(borrower) {
            Some(line) => line,
            None => {
                return Err(CreditError::CreditLineNotFound);
            },
        };
        proof {
            ledger.lemma_keyed();
        }
        let next = line.with_status(kind.status());
        let event = CreditLineEvent::snapshot(kind, &next);
        ledger.put(next);
        Ok(CreditEvent::Lifecycle(event))
    }
}

} // verus!
