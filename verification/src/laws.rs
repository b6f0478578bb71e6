//! What holds of the engine on every input: the accounting invariant on all
//! reachable ledgers, and the laws of drawing and repaying.
//!
//! The laws are stated over the model that the contracts of
//! [`Credit`](crate::engine::Credit) are stated over, so each of them holds
//! of what the operations do.
use vstd::prelude::*;
use crate::engine::Request;
use crate::ledger::LedgerState;
use crate::line::CreditLine;
use crate::status::{CreditError, CreditStatus};

verus! {

/// One thing that can happen to a ledger.
pub enum Step {
    /// The engine is set up.
    Init { admin: Seq<char>, reserve_asset: Seq<char> },
    /// `caller` makes `request`.
    Ask { caller: Seq<char>, request: Request },
}

impl LedgerState {
    /// The ledger after `step`.
    pub open spec fn step(self, step: Step) -> LedgerState {
        match step {
            Step::Init { admin, reserve_asset } => self.with_roles(admin, reserve_asset),
            Step::Ask { caller, request } => self.after(caller, request),
        }
    }

    /// The ledger after `steps`, taken in order.
    pub open spec fn replay(self, steps: Seq<Step>) -> LedgerState
        decreases steps.len(),
    {
        if steps.len() == 0 {
            self
        } else {
            self.replay(steps.drop_last()).step(steps.last())
        }
    }
}

/// A transition keeps the utilization of a line between zero and its limit,
/// and every line that is opened starts there.
pub proof fn law_transition_keeps_within_limit(line: Option<CreditLine>, request: Request)
    requires
        line matches Some(l) ==> l.within_limit(),
        LedgerState::transform(line, request) is Ok,
    ensures
        LedgerState::transform(line, request).unwrap().within_limit(),
{
}

/// Which transitions of the status exist. Opening gives an active line;
/// drawing, repaying and new parameters leave the status as it is;
/// suspending, closing and defaulting succeed on a line in any state, a
/// terminal one too, and give the status they are named after.
pub proof fn law_status_after_request(line: Option<CreditLine>, request: Request)
    ensures
        line is Some && (request is Suspend || request is Close || request is Default)
            ==> LedgerState::transform(line, request) is Ok,
        LedgerState::transform(line, request) matches Ok(next) ==> next.status == (match request {
            Request::Open { .. } => CreditStatus::Active,
            Request::Suspend { .. } => CreditStatus::Suspended,
            Request::Close { .. } => CreditStatus::Closed,
            Request::Default { .. } => CreditStatus::Defaulted,
            _ => line.unwrap().status,
        }),
{
}

/// No request but the opening of a line makes a line active that was not:
/// a suspended, closed or defaulted line is never reactivated in place.
pub proof fn law_only_opening_activates(line: CreditLine, request: Request)
    requires
        !(request is Open),
        line.status != CreditStatus::Active,
    ensures
        LedgerState::transform(Some(line), request) matches Ok(next) ==> next.status
            != CreditStatus::Active,
{
}

/// While a line is closed or defaulted no request changes what is drawn on
/// it.
pub proof fn law_terminal_line_keeps_utilization(line: CreditLine, request: Request)
    requires
        !(request is Open),
        line.status.is_terminal(),
    ensures
        LedgerState::transform(Some(line), request) matches Ok(next) ==> next.utilized_amount
            == line.utilized_amount,
{
}

/// A transition never changes whose line it is.
pub proof fn law_transition_keeps_borrower(line: Option<CreditLine>, request: Request)
    requires
        LedgerState::transform(line, request) is Ok,
    ensures
        LedgerState::transform(line, request).unwrap().borrower == (if request is Open {
            request.borrower()
        } else {
            line.unwrap().borrower
        }),
{
}

/// A request changes no record but that of the borrower it names, and none
/// at all when it fails.
pub proof fn law_request_touches_one_record(
    ledger: LedgerState,
    caller: Seq<char>,
    request: Request,
    other: Seq<char>,
)
    requires
        ledger.keyed(),
        other != request.borrower(),
    ensures
        ledger.after(caller, request).line(other) == ledger.line(other),
        ledger.after(caller, request).admin == ledger.admin,
        ledger.after(caller, request).reserve_asset == ledger.reserve_asset,
        ledger.decide(caller, request) is Err ==> ledger.after(caller, request) == ledger,
{
    if ledger.decide(caller, request) is Ok && !(request is Open) {
        assert(ledger.lines.contains_key(request.borrower()));
    }
}

/// Requests that name different borrowers do not depend on each other:
/// each is decided as if the other had not been made, and the ledger that
/// results is the same in either order.
pub proof fn law_different_borrowers_commute(
    ledger: LedgerState,
    first_caller: Seq<char>,
    first: Request,
    second_caller: Seq<char>,
    second: Request,
)
    requires
        ledger.keyed(),
        first.borrower() != second.borrower(),
    ensures
        ledger.after(first_caller, first).decide(second_caller, second) == ledger.decide(
            second_caller,
            second,
        ),
        ledger.after(second_caller, second).decide(first_caller, first) == ledger.decide(
            first_caller,
            first,
        ),
        ledger.after(first_caller, first).after(second_caller, second) == ledger.after(
            second_caller,
            second,
        ).after(first_caller, first),
{
    law_request_touches_one_record(ledger, first_caller, first, second.borrower());
    law_request_touches_one_record(ledger, second_caller, second, first.borrower());
    if ledger.decide(first_caller, first) is Ok {
        law_request_lands_on_its_borrower(ledger, first_caller, first);
    }
    if ledger.decide(second_caller, second) is Ok {
        law_request_lands_on_its_borrower(ledger, second_caller, second);
    }
    let one = ledger.after(first_caller, first).after(second_caller, second);
    let other = ledger.after(second_caller, second).after(first_caller, first);
    assert(one.lines =~= other.lines);
}

/// The record that a request leaves is stored under the borrower it names.
pub proof fn law_request_lands_on_its_borrower(ledger: LedgerState, caller: Seq<char>, request: Request)
    requires
        ledger.keyed(),
        ledger.decide(caller, request) is Ok,
    ensures
        ledger.decide(caller, request).unwrap().borrower == request.borrower(),
        ledger.after(caller, request).line(request.borrower()) == Some(
            ledger.decide(caller, request).unwrap(),
        ),
{
    if !(request is Open) {
        assert(ledger.lines.contains_key(request.borrower()));
    }
}

/// One step keeps a ledger in which every record is stored under its
/// borrower and within its limit that way.
pub proof fn law_step_keeps_invariant(ledger: LedgerState, step: Step)
    requires
        ledger.keyed(),
        ledger.within_limits(),
    ensures
        ledger.step(step).keyed(),
        ledger.step(step).within_limits(),
{
    match step {
        Step::Init { .. } => {},
        Step::Ask { caller, request } => {
            match ledger.decide(caller, request) {
                Ok(next) => {
                    let line = ledger.line(request.borrower());
                    if line is Some {
                        assert(ledger.lines.contains_key(request.borrower()));
                    }
                    law_transition_keeps_within_limit(line, request);
                    law_transition_keeps_borrower(line, request);
                    let after = ledger.with_line(next);
                    assert forall|b: Seq<char>| #[trigger] after.lines.contains_key(b) implies after.lines[b].borrower
                        == b && after.lines[b].within_limit() by {
                        if b != next.borrower {
                            assert(ledger.lines.contains_key(b));
                        }
                    }
                },
                Err(_) => {},
            }
        },
    }
}

/// On every ledger that can be reached from the empty one, every record is
/// stored under its borrower and has `0 <= utilized_amount <= credit_limit`.
pub proof fn law_reachable_within_limits(steps: Seq<Step>)
    ensures
        LedgerState::empty().replay(steps).keyed(),
        LedgerState::empty().replay(steps).within_limits(),
    decreases steps.len(),
{
    if steps.len() > 0 {
        law_reachable_within_limits(steps.drop_last());
        law_step_keeps_invariant(LedgerState::empty().replay(steps.drop_last()), steps.last());
    }
}

/// On every ledger that can be reached from the empty one, the
/// administrator and the reserve asset are named together, and a borrower
/// has a line only once they are. So whenever a draw succeeds there is a
/// reserve to move the value from.
pub proof fn law_reachable_lines_have_a_reserve(steps: Seq<Step>, borrower: Seq<char>)
    ensures
        ({
            let ledger = LedgerState::empty().replay(steps);
            &&& ledger.admin is Some <==> ledger.reserve_asset is Some
            &&& ledger.has_line(borrower) ==> ledger.is_set_up()
        }),
    decreases steps.len(),
{
    if steps.len() > 0 {
        law_reachable_lines_have_a_reserve(steps.drop_last(), borrower);
        law_reachable_within_limits(steps.drop_last());
        let before = LedgerState::empty().replay(steps.drop_last());
        match steps.last() {
            Step::Init { .. } => {},
            Step::Ask { caller, request } => {
                if before.decide(caller, request) is Ok && request.borrower() != borrower {
                    law_request_touches_one_record(before, caller, request, borrower);
                }
            },
        }
    }
}

/// Opening a line succeeds for the administrator exactly when the limit is
/// not negative; a negative limit is refused and changes nothing.
pub proof fn law_open_refuses_negative_limit(
    ledger: LedgerState,
    caller: Seq<char>,
    borrower: Seq<char>,
    credit_limit: i128,
    interest_rate_bps: u32,
    risk_score: u32,
)
    requires
        ledger.is_admin(caller),
    ensures
        ({
            let request = Request::Open { borrower, credit_limit, interest_rate_bps, risk_score };
            &&& credit_limit < 0 ==> ledger.decide(caller, request) == Err::<CreditLine, CreditError>(
                CreditError::InvalidAmount,
            ) && ledger.after(caller, request) == ledger
            &&& credit_limit >= 0 ==> ledger.decide(caller, request) == Ok::<CreditLine, CreditError>(
                CreditLine::opened(borrower, credit_limit, interest_rate_bps, risk_score),
            )
        }),
{
}

/// Drawing an amount and repaying the same amount gives the line back as it
/// was.
pub proof fn law_draw_then_repay_restores(line: CreditLine, amount: i128)
    requires
        line.within_limit(),
        line.draw(amount) is Ok,
    ensures
        line.draw(amount).unwrap().repay(amount) == Ok::<CreditLine, CreditError>(line),
{
}

/// On a ledger, a draw followed by a repayment of the same amount leaves the
/// utilization of the borrower where it was, and every record as it was.
pub proof fn law_draw_then_repay_restores_ledger(ledger: LedgerState, borrower: Seq<char>, amount: i128)
    requires
        ledger.keyed(),
        ledger.within_limits(),
        ledger.decide(borrower, Request::Draw { borrower, amount }) is Ok,
    ensures
        ({
            let drawn = ledger.after(borrower, Request::Draw { borrower, amount });
            let repaid = drawn.after(borrower, Request::Repay { borrower, amount });
            &&& drawn.decide(borrower, Request::Repay { borrower, amount }) is Ok
            &&& repaid.lines[borrower].utilized_amount == ledger.lines[borrower].utilized_amount
            &&& repaid == ledger
        }),
{
    let line = ledger.lines[borrower];
    assert(ledger.lines.contains_key(borrower));
    law_draw_then_repay_restores(line, amount);
    let drawn = ledger.after(borrower, Request::Draw { borrower, amount });
    assert(drawn.lines.contains_key(borrower));
    let repaid = drawn.after(borrower, Request::Repay { borrower, amount });
    assert(repaid.lines =~= ledger.lines);
}

/// A draw of more than `credit_limit - utilized_amount` on an active line
/// fails because the limit would be exceeded.
pub proof fn law_draw_beyond_headroom_fails(line: CreditLine, amount: i128)
    requires
        line.within_limit(),
        line.status == CreditStatus::Active,
        amount > line.credit_limit - line.utilized_amount,
    ensures
        line.draw(amount) == Err::<CreditLine, CreditError>(CreditError::InsufficientUtilization),
{
}

/// On a ledger, a borrower's draw beyond the headroom of an active line
/// fails because the limit would be exceeded, and changes nothing.
pub proof fn law_draw_beyond_headroom_changes_nothing(
    ledger: LedgerState,
    borrower: Seq<char>,
    amount: i128,
)
    requires
        ledger.within_limits(),
        ledger.has_line(borrower),
        ledger.lines[borrower].status == CreditStatus::Active,
        amount > ledger.lines[borrower].credit_limit - ledger.lines[borrower].utilized_amount,
    ensures
        ledger.decide(borrower, Request::Draw { borrower, amount }) == Err::<CreditLine, CreditError>(
            CreditError::InsufficientUtilization,
        ),
        ledger.after(borrower, Request::Draw { borrower, amount }) == ledger,
{
    assert(ledger.lines.contains_key(borrower));
    law_draw_beyond_headroom_fails(ledger.lines[borrower], amount);
}

/// Nothing can be drawn on a line that is suspended, closed or defaulted.
pub proof fn law_inactive_line_rejects_draw(ledger: LedgerState, borrower: Seq<char>, amount: i128)
    requires
        ledger.has_line(borrower),
        ledger.lines[borrower].status != CreditStatus::Active,
    ensures
        ledger.decide(borrower, Request::Draw { borrower, amount }) == Err::<CreditLine, CreditError>(
            CreditError::InvalidCreditStatus,
        ),
        ledger.after(borrower, Request::Draw { borrower, amount }) == ledger,
{
}

/// Nothing can be repaid on a line that is closed or defaulted.
pub proof fn law_terminal_line_rejects_repay(ledger: LedgerState, borrower: Seq<char>, amount: i128)
    requires
        ledger.has_line(borrower),
        ledger.lines[borrower].status.is_terminal(),
    ensures
        ledger.decide(borrower, Request::Repay { borrower, amount }) == Err::<CreditLine, CreditError>(
            CreditError::InvalidCreditStatus,
        ),
        ledger.after(borrower, Request::Repay { borrower, amount }) == ledger,
{
}

/// A positive repayment on a suspended line is accepted, and the line stays
/// suspended.
pub proof fn law_suspended_line_accepts_repay(ledger: LedgerState, borrower: Seq<char>, amount: i128)
    requires
        ledger.has_line(borrower),
        ledger.lines[borrower].status == CreditStatus::Suspended,
        amount > 0,
    ensures
        ledger.decide(borrower, Request::Repay { borrower, amount }) is Ok,
        ledger.decide(borrower, Request::Repay { borrower, amount }).unwrap().status
            == CreditStatus::Suspended,
{
}

/// A repayment of more than is owed brings the utilization to zero: what is
/// owed is applied and the rest is discarded.
pub proof fn law_overpayment_settles(line: CreditLine, amount: i128)
    requires
        line.status.allows_repay(),
        amount > 0,
        amount > line.utilized_amount,
    ensures
        line.repay(amount) is Ok,
        line.repay(amount).unwrap().utilized_amount == 0,
        line.applied(amount) == line.utilized_amount,
{
}

/// A repayment never leaves a negative utilization, and never applies more
/// than was offered.
pub proof fn law_repay_never_negative(line: CreditLine, amount: i128)
    requires
        line.within_limit(),
        line.repay(amount) is Ok,
    ensures
        0 <= line.repay(amount).unwrap().utilized_amount <= line.utilized_amount,
        0 <= line.applied(amount) <= amount,
{
}

/// Every request but the opening of a line fails with
/// `CreditLineNotFound` when the borrower has no record, whoever of those
/// that hold the required proof makes it, and changes nothing.
pub proof fn law_absent_borrower_not_found(ledger: LedgerState, caller: Seq<char>, request: Request)
    requires
        !(request is Open),
        !ledger.has_line(request.borrower()),
        ledger.permits(request.operation(), caller, request.borrower()),
    ensures
        ledger.decide(caller, request) == Err::<CreditLine, CreditError>(
            CreditError::CreditLineNotFound,
        ),
        ledger.after(caller, request) == ledger,
{
}

} // verus!
