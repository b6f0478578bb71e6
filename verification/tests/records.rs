use credit::{
    CreditError, CreditEvent, CreditLineData, CreditLineEvent, CreditStatus, EventType, Ledger,
};

fn line(limit: i128, utilized: i128, status: CreditStatus) -> CreditLineData {
    CreditLineData {
        borrower: String::from("GBORROWER"),
        credit_limit: limit,
        utilized_amount: utilized,
        interest_rate_bps: 300,
        risk_score: 70,
        status,
    }
}

#[test]
fn status_codes_are_stable() {
    assert_eq!(CreditStatus::Active.code(), 0);
    assert_eq!(CreditStatus::Suspended.code(), 1);
    assert_eq!(CreditStatus::Defaulted.code(), 2);
    assert_eq!(CreditStatus::Closed.code(), 3);
}

#[test]
fn error_codes_are_stable() {
    assert_eq!(CreditError::CreditLineNotFound.code(), 1);
    assert_eq!(CreditError::InvalidCreditStatus.code(), 2);
    assert_eq!(CreditError::InvalidAmount.code(), 3);
    assert_eq!(CreditError::InsufficientUtilization.code(), 4);
    assert_eq!(CreditError::Unauthorized.code(), 5);
    assert_eq!(CreditError::Overflow.code(), 6);
}

#[test]
fn event_kinds_have_topics_and_statuses() {
    assert_eq!(EventType::Opened.topic(), "opened");
    assert_eq!(EventType::Suspend.topic(), "suspend");
    assert_eq!(EventType::Closed.topic(), "closed");
    assert_eq!(EventType::Default.topic(), "default");
    assert_eq!(EventType::Opened.status(), CreditStatus::Active);
    assert_eq!(EventType::Suspend.status(), CreditStatus::Suspended);
    assert_eq!(EventType::Closed.status(), CreditStatus::Closed);
    assert_eq!(EventType::Default.status(), CreditStatus::Defaulted);
}

#[test]
fn a_fresh_line_is_active_and_undrawn() {
    let opened = CreditLineData::open(&String::from("GBORROWER"), 1000, 300, 70);
    assert_eq!(opened, Ok(line(1000, 0, CreditStatus::Active)));
    let empty = CreditLineData::open(&String::from("GBORROWER"), 0, 300, 70);
    assert_eq!(empty, Ok(line(0, 0, CreditStatus::Active)));
    let negative = CreditLineData::open(&String::from("GBORROWER"), -1, 300, 70);
    assert_eq!(negative, Err(CreditError::InvalidAmount));
}

#[test]
fn clone_copies_every_field() {
    let first = line(1000, 250, CreditStatus::Suspended);
    assert_eq!(first.clone(), first);
}

#[test]
fn record_draw_checks_in_order() {
    let active = line(1000, 400, CreditStatus::Active);
    assert_eq!(active.draw(600), Ok(line(1000, 1000, CreditStatus::Active)));
    assert_eq!(active.draw(601), Err(CreditError::InsufficientUtilization));
    assert_eq!(active.draw(0), Err(CreditError::InvalidAmount));
    assert_eq!(active.draw(i128::MAX), Err(CreditError::InsufficientUtilization));
    assert_eq!(
        line(1000, 400, CreditStatus::Suspended).draw(0),
        Err(CreditError::InvalidCreditStatus)
    );
    assert_eq!(
        line(i128::MIN, 1, CreditStatus::Active).draw(5),
        Err(CreditError::Overflow)
    );
    assert_eq!(
        line(i128::MAX, -1, CreditStatus::Active).draw(5),
        Err(CreditError::Overflow)
    );
}

#[test]
fn record_repay_caps_at_what_is_owed() {
    let active = line(1000, 400, CreditStatus::Active);
    assert_eq!(active.repay(150), Ok(line(1000, 250, CreditStatus::Active)));
    assert_eq!(active.repay(400), Ok(line(1000, 0, CreditStatus::Active)));
    assert_eq!(active.repay(i128::MAX), Ok(line(1000, 0, CreditStatus::Active)));
    assert_eq!(active.repay(0), Err(CreditError::InvalidAmount));
    assert_eq!(
        line(1000, 400, CreditStatus::Suspended).repay(1),
        Ok(line(1000, 399, CreditStatus::Suspended))
    );
    assert_eq!(
        line(1000, 400, CreditStatus::Closed).repay(1),
        Err(CreditError::InvalidCreditStatus)
    );
    assert_eq!(
        line(1000, 400, CreditStatus::Defaulted).repay(1),
        Err(CreditError::InvalidCreditStatus)
    );
}

#[test]
fn record_status_and_parameters_change_alone() {
    let active = line(1000, 400, CreditStatus::Active);
    assert_eq!(
        active.with_status(CreditStatus::Defaulted),
        line(1000, 400, CreditStatus::Defaulted)
    );
    let updated = active.reparameterize(400, 1, 2).unwrap();
    assert_eq!(updated.credit_limit, 400);
    assert_eq!(updated.interest_rate_bps, 1);
    assert_eq!(updated.risk_score, 2);
    assert_eq!(updated.utilized_amount, 400);
    assert_eq!(updated.status, CreditStatus::Active);
    assert_eq!(active.reparameterize(399, 1, 2), Err(CreditError::InsufficientUtilization));
}

#[test]
fn snapshot_copies_the_line() {
    let suspended = line(1000, 400, CreditStatus::Suspended);
    assert_eq!(
        CreditLineEvent::snapshot(EventType::Suspend, &suspended),
        CreditLineEvent {
            event_type: EventType::Suspend,
            borrower: String::from("GBORROWER"),
            status: CreditStatus::Suspended,
            credit_limit: 1000,
            interest_rate_bps: 300,
            risk_score: 70,
        }
    );
}

#[test]
fn ledger_keeps_one_record_per_borrower() {
    let mut ledger = Ledger::new();
    let first = String::from("GFIRST");
    let second = String::from("GSECOND");
    assert_eq!(ledger.get(&first), None);

    ledger.put(CreditLineData::open(&first, 100, 1, 1).unwrap());
    ledger.put(CreditLineData::open(&second, 200, 2, 2).unwrap());
    ledger.put(CreditLineData::open(&first, 300, 3, 3).unwrap());

    assert_eq!(ledger.get(&first), CreditLineData::open(&first, 300, 3, 3).ok());
    assert_eq!(ledger.get(&second), CreditLineData::open(&second, 200, 2, 2).ok());
    assert_eq!(ledger.get(&String::from("GTHIRD")), None);
}

#[test]
fn every_event_has_its_topic() {
    let suspended = line(1000, 400, CreditStatus::Suspended);
    for (kind, topic) in [
        (EventType::Opened, "opened"),
        (EventType::Suspend, "suspend"),
        (EventType::Closed, "closed"),
        (EventType::Default, "default"),
    ] {
        let event = CreditEvent::Lifecycle(CreditLineEvent::snapshot(kind, &suspended));
        assert_eq!(event.topic(), topic);
    }
    let draw = CreditEvent::Draw {
        borrower: String::from("GBORROWER"),
        amount: 5,
        new_utilized: 405,
    };
    assert_eq!(draw.topic(), "draw");
    let repayment = CreditEvent::Repayment {
        borrower: String::from("GBORROWER"),
        amount_applied: 5,
        new_utilized: 395,
    };
    assert_eq!(repayment.topic(), "repayment");
}
