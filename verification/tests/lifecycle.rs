use credit::{Credit, CreditStatus, Ledger};

fn admin() -> String {
    String::from("GADMIN")
}

fn borrower() -> String {
    String::from("GBORROWER")
}

fn fresh() -> Ledger {
    let mut ledger = Ledger::new();
    Credit::init(&mut ledger, &admin(), &String::from("CRESERVE"));
    ledger
}

#[test]
fn test_init_and_open_credit_line() {
    let admin = admin();
    let borrower = borrower();
    let mut ledger = fresh();

    Credit::open_credit_line(&mut ledger, &admin, &borrower, 1000_i128, 300_u32, 70_u32).unwrap();

    let credit_line = Credit::get_credit_line(&ledger, &borrower);
    assert!(credit_line.is_some());
    let credit_line = credit_line.unwrap();
    assert_eq!(credit_line.borrower, borrower);
    assert_eq!(credit_line.credit_limit, 1000);
    assert_eq!(credit_line.utilized_amount, 0);
    assert_eq!(credit_line.interest_rate_bps, 300);
    assert_eq!(credit_line.risk_score, 70);
    assert_eq!(credit_line.status, CreditStatus::Active);
}

#[test]
fn test_suspend_credit_line() {
    let admin = admin();
    let borrower = borrower();
    let mut ledger = fresh();

    Credit::open_credit_line(&mut ledger, &admin, &borrower, 1000_i128, 300_u32, 70_u32).unwrap();
    Credit::suspend_credit_line(&mut ledger, &admin, &borrower).unwrap();

    let credit_line = Credit::get_credit_line(&ledger, &borrower).unwrap();
    assert_eq!(credit_line.status, CreditStatus::Suspended);
}

#[test]
fn test_close_credit_line() {
    let admin = admin();
    let borrower = borrower();
    let mut ledger = fresh();

    Credit::open_credit_line(&mut ledger, &admin, &borrower, 1000_i128, 300_u32, 70_u32).unwrap();
    Credit::close_credit_line(&mut ledger, &admin, &borrower).unwrap();

    let credit_line = Credit::get_credit_line(&ledger, &borrower).unwrap();
    assert_eq!(credit_line.status, CreditStatus::Closed);
}

#[test]
fn test_default_credit_line() {
    let admin = admin();
    let borrower = borrower();
    let mut ledger = fresh();

    Credit::open_credit_line(&mut ledger, &admin, &borrower, 1000_i128, 300_u32, 70_u32).unwrap();
    Credit::default_credit_line(&mut ledger, &admin, &borrower).unwrap();

    let credit_line = Credit::get_credit_line(&ledger, &borrower).unwrap();
    assert_eq!(credit_line.status, CreditStatus::Defaulted);
}

#[test]
fn test_full_lifecycle() {
    let admin = admin();
    let borrower = borrower();
    let mut ledger = fresh();

    Credit::open_credit_line(&mut ledger, &admin, &borrower, 5000_i128, 500_u32, 80_u32).unwrap();
    let credit_line = Credit::get_credit_line(&ledger, &borrower).unwrap();
    assert_eq!(credit_line.status, CreditStatus::Active);

    Credit::suspend_credit_line(&mut ledger, &admin, &borrower).unwrap();
    let credit_line = Credit::get_credit_line(&ledger, &borrower).unwrap();
    assert_eq!(credit_line.status, CreditStatus::Suspended);

    Credit::close_credit_line(&mut ledger, &admin, &borrower).unwrap();
    let credit_line = Credit::get_credit_line(&ledger, &borrower).unwrap();
    assert_eq!(credit_line.status, CreditStatus::Closed);
}

#[test]
fn test_event_data_integrity() {
    let admin = admin();
    let borrower = borrower();
    let mut ledger = fresh();

    Credit::open_credit_line(&mut ledger, &admin, &borrower, 2000_i128, 400_u32, 75_u32).unwrap();

    let credit_line = Credit::get_credit_line(&ledger, &borrower).unwrap();
    assert_eq!(credit_line.borrower, borrower);
    assert_eq!(credit_line.status, CreditStatus::Active);
    assert_eq!(credit_line.credit_limit, 2000);
    assert_eq!(credit_line.interest_rate_bps, 400);
    assert_eq!(credit_line.risk_score, 75);
}

#[test]
#[should_panic(expected = "Credit line not found")]
fn test_suspend_nonexistent_credit_line() {
    let admin = admin();
    let borrower = borrower();
    let mut ledger = fresh();

    Credit::suspend_credit_line(&mut ledger, &admin, &borrower).expect("Credit line not found");
}

#[test]
#[should_panic(expected = "Credit line not found")]
fn test_close_nonexistent_credit_line() {
    let admin = admin();
    let borrower = borrower();
    let mut ledger = fresh();

    Credit::close_credit_line(&mut ledger, &admin, &borrower).expect("Credit line not found");
}

#[test]
#[should_panic(expected = "Credit line not found")]
fn test_default_nonexistent_credit_line() {
    let admin = admin();
    let borrower = borrower();
    let mut ledger = fresh();

    Credit::default_credit_line(&mut ledger, &admin, &borrower).expect("Credit line not found");
}

#[test]
fn test_multiple_borrowers() {
    let admin = admin();
    let borrower1 = String::from("GBORROWER1");
    let borrower2 = String::from("GBORROWER2");
    let mut ledger = fresh();

    Credit::open_credit_line(&mut ledger, &admin, &borrower1, 1000_i128, 300_u32, 70_u32).unwrap();
    Credit::open_credit_line(&mut ledger, &admin, &borrower2, 2000_i128, 400_u32, 80_u32).unwrap();

    let credit_line1 = Credit::get_credit_line(&ledger, &borrower1).unwrap();
    let credit_line2 = Credit::get_credit_line(&ledger, &borrower2).unwrap();

    assert_eq!(credit_line1.credit_limit, 1000);
    assert_eq!(credit_line2.credit_limit, 2000);
    assert_eq!(credit_line1.status, CreditStatus::Active);
    assert_eq!(credit_line2.status, CreditStatus::Active);
}

#[test]
fn test_lifecycle_transitions() {
    let admin = admin();
    let borrower = borrower();
    let mut ledger = fresh();

    Credit::open_credit_line(&mut ledger, &admin, &borrower, 1000_i128, 300_u32, 70_u32).unwrap();
    assert_eq!(
        Credit::get_credit_line(&ledger, &borrower).unwrap().status,
        CreditStatus::Active
    );

    Credit::default_credit_line(&mut ledger, &admin, &borrower).unwrap();
    assert_eq!(
        Credit::get_credit_line(&ledger, &borrower).unwrap().status,
        CreditStatus::Defaulted
    );
}

#[test]
fn nonexistent_line_errors_are_not_found() {
    let admin = admin();
    let borrower = borrower();
    let mut ledger = fresh();

    assert_eq!(
        Credit::suspend_credit_line(&mut ledger, &admin, &borrower),
        Err(credit::CreditError::CreditLineNotFound)
    );
    assert_eq!(
        Credit::close_credit_line(&mut ledger, &admin, &borrower),
        Err(credit::CreditError::CreditLineNotFound)
    );
    assert_eq!(
        Credit::default_credit_line(&mut ledger, &admin, &borrower),
        Err(credit::CreditError::CreditLineNotFound)
    );
    assert!(Credit::get_credit_line(&ledger, &borrower).is_none());
}

#[test]
fn suspended_line_can_be_defaulted_and_closed_line_suspended() {
    let admin = admin();
    let borrower = borrower();
    let mut ledger = fresh();

    Credit::open_credit_line(&mut ledger, &admin, &borrower, 1000, 300, 70).unwrap();
    Credit::suspend_credit_line(&mut ledger, &admin, &borrower).unwrap();
    Credit::default_credit_line(&mut ledger, &admin, &borrower).unwrap();
    assert_eq!(
        Credit::get_credit_line(&ledger, &borrower).unwrap().status,
        CreditStatus::Defaulted
    );
    Credit::close_credit_line(&mut ledger, &admin, &borrower).unwrap();
    Credit::suspend_credit_line(&mut ledger, &admin, &borrower).unwrap();
    assert_eq!(
        Credit::get_credit_line(&ledger, &borrower).unwrap().status,
        CreditStatus::Suspended
    );
}

#[test]
fn reopening_replaces_the_line() {
    let admin = admin();
    let borrower = borrower();
    let mut ledger = fresh();

    Credit::open_credit_line(&mut ledger, &admin, &borrower, 1000, 300, 70).unwrap();
    Credit::draw_credit(&mut ledger, &borrower, &borrower, 400).unwrap();
    Credit::suspend_credit_line(&mut ledger, &admin, &borrower).unwrap();
    Credit::open_credit_line(&mut ledger, &admin, &borrower, 250, 10, 5).unwrap();

    let line = Credit::get_credit_line(&ledger, &borrower).unwrap();
    assert_eq!(line.credit_limit, 250);
    assert_eq!(line.utilized_amount, 0);
    assert_eq!(line.interest_rate_bps, 10);
    assert_eq!(line.risk_score, 5);
    assert_eq!(line.status, CreditStatus::Active);
}

#[test]
fn only_opening_anew_makes_a_line_active_again() {
    let admin = admin();
    let borrower = borrower();
    let mut ledger = fresh();

    Credit::open_credit_line(&mut ledger, &admin, &borrower, 1000, 300, 70).unwrap();
    Credit::draw_credit(&mut ledger, &borrower, &borrower, 400).unwrap();
    Credit::close_credit_line(&mut ledger, &admin, &borrower).unwrap();

    let _ = Credit::repay_credit(&mut ledger, &borrower, &borrower, 100);
    let _ = Credit::draw_credit(&mut ledger, &borrower, &borrower, 100);
    Credit::update_risk_parameters(&mut ledger, &admin, &borrower, 2000, 1, 1).unwrap();
    let line = Credit::get_credit_line(&ledger, &borrower).unwrap();
    assert_eq!(line.status, CreditStatus::Closed);
    assert_eq!(line.utilized_amount, 400);

    Credit::default_credit_line(&mut ledger, &admin, &borrower).unwrap();
    Credit::suspend_credit_line(&mut ledger, &admin, &borrower).unwrap();
    assert_eq!(
        Credit::get_credit_line(&ledger, &borrower).unwrap().status,
        CreditStatus::Suspended
    );

    Credit::open_credit_line(&mut ledger, &admin, &borrower, 1000, 300, 70).unwrap();
    let line = Credit::get_credit_line(&ledger, &borrower).unwrap();
    assert_eq!(line.status, CreditStatus::Active);
    assert_eq!(line.utilized_amount, 0);
}

#[test]
fn a_line_exists_only_once_the_roles_are_named() {
    let admin = admin();
    let borrower = borrower();
    let mut ledger = Ledger::new();

    assert!(Credit::open_credit_line(&mut ledger, &admin, &borrower, 1000, 300, 70).is_err());
    assert!(Credit::get_credit_line(&ledger, &borrower).is_none());
    assert_eq!(ledger.reserve_asset(), None);

    Credit::init(&mut ledger, &admin, &String::from("CRESERVE"));
    Credit::open_credit_line(&mut ledger, &admin, &borrower, 1000, 300, 70).unwrap();
    let event = Credit::draw_credit(&mut ledger, &borrower, &borrower, 10).unwrap();
    assert_eq!(event.transfer(), Some(10));
    assert_eq!(ledger.reserve_asset(), Some(String::from("CRESERVE")));
}
