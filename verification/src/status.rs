//! Lifecycle states and error codes.
use vstd::prelude::*;

verus! {

/// Lifecycle state of a credit line.
///
/// `Closed` and `Defaulted` are terminal markers: the record stays in the
/// ledger, but nothing can be drawn or repaid on a line in either state.
/// The administrator can put a line into `Suspended`, `Closed` or
/// `Defaulted` from any state, a terminal one too. Nothing but opening the
/// line anew makes it `Active` again.
#[derive(Clone, Copy, Debug, PartialEq, Eq, Structural)]
pub enum CreditStatus {
    Active,
    Suspended,
    Defaulted,
    Closed,
}

impl CreditStatus {
    /// The stable numeric code of a status.
    pub open spec fn spec_code(self) -> u32 {
        match self {
            CreditStatus::Active => 0,
            CreditStatus::Suspended => 1,
            CreditStatus::Defaulted => 2,
            CreditStatus::Closed => 3,
        }
    }

    /// Whether value may be drawn in this state.
    pub open spec fn allows_draw(self) -> bool {
        self == CreditStatus::Active
    }

    /// Whether a repayment is accepted in this state.
    pub open spec fn allows_repay(self) -> bool {
        self == CreditStatus::Active || self == CreditStatus::Suspended
    }

    /// Whether the state is a terminal marker.
    pub open spec fn is_terminal(self) -> bool {
        self == CreditStatus::Defaulted || self == CreditStatus::Closed
    }

    /// The stable numeric code of a status.
    pub fn code(self) -> (c: u32)
        ensures
            c == self.spec_code(),
    {
        match self {
            CreditStatus::Active => 0,
            CreditStatus::Suspended => 1,
            CreditStatus::Defaulted => 2,
            CreditStatus::Closed => 3,
        }
    }
}

/// Why an operation was refused.
#[derive(Clone, Copy, Debug, PartialEq, Eq, Structural)]
pub enum CreditError {
    /// No record exists for the borrower.
    CreditLineNotFound,
    /// The operation is not permitted in the line's lifecycle state.
    InvalidCreditStatus,
    /// The amount is zero or negative, or the limit of a new line is negative.
    InvalidAmount,
    /// The limit does not cover the utilization that would result.
    InsufficientUtilization,
    /// The caller does not hold the proof that the operation requires.
    Unauthorized,
    /// The arithmetic would leave the range of a signed 128-bit integer.
    Overflow,
}

impl CreditError {
    /// The stable numeric code of an error.
    pub open spec fn spec_code(self) -> u32 {
        match self {
            CreditError::CreditLineNotFound => 1,
            CreditError::InvalidCreditStatus => 2,
            CreditError::InvalidAmount => 3,
            CreditError::InsufficientUtilization => 4,
            CreditError::Unauthorized => 5,
            CreditError::Overflow => 6,
        }
    }

    /// The stable numeric code of an error.
    pub fn code(self) -> (c: u32)
        ensures
            c == self.spec_code(),
    {
        match self {
            CreditError::CreditLineNotFound => 1,
            CreditError::InvalidCreditStatus => 2,
            CreditError::InvalidAmount => 3,
            CreditError::InsufficientUtilization => 4,
            CreditError::Unauthorized => 5,
            CreditError::Overflow => 6,
        }
    }
}

} // verus!
