//! Revolving credit lines: one record per borrower, drawn against and repaid
//! under a limit, and moved through a lifecycle by an administrator.
//!
//! The crate is a state machine over a [`Ledger`]. An operation of
//! [`Credit`] either succeeds, replaces one borrower's record and returns
//! the event to publish, or fails with a [`CreditError`] and leaves the
//! ledger as it was. The host that embeds the engine proves who the caller
//! is, moves the value that was drawn and publishes the events.
//!
//! What each operation does is stated over a mathematical model of the
//! ledger (see [`ledger::LedgerState`] and [`engine::Request`]); what
//! follows for every ledger that can be reached is proved in [`laws`].

pub mod status;
pub mod line;
pub mod event;
pub mod ledger;
pub mod engine;
pub mod laws;

pub use crate::engine::{Credit, Operation, RequiredProof};
pub use crate::event::{CreditEvent, CreditLineEvent, EventType};
pub use crate::ledger::Ledger;
pub use crate::line::CreditLineData;
pub use crate::status::{CreditError, CreditStatus};

