use escrow::{AccountId, AgreementStatus, CheckOutcome, Condition, Escrow, EscrowError, Release};

fn account(b: u8) -> AccountId {
    AccountId::new([b; 32])
}

fn buyer() -> AccountId {
    account(0xB)
}

fn seller() -> AccountId {
    account(0x5)
}

fn conditions(names: &[&str]) -> Vec<Condition> {
    names.iter().map(|n| Condition::new(n.to_string())).collect()
}

fn engine_with_inspection() -> Escrow {
    let mut e = Escrow::new(account(0xE));
    assert!(e.create_agreement(1, buyer(), seller(), 100, conditions(&["inspection"])).is_ok());
    e
}

fn flags(e: &Escrow, id: u32, i: usize) -> (bool, bool) {
    let a = e.get_agreement(id).unwrap();
    let c = &a.conditions()[i];
    (c.condition_check_from_buyer(), c.condition_check_from_seller())
}

fn expect_release(r: Result<CheckOutcome, EscrowError>) -> Release {
    match r {
        Ok(CheckOutcome::Release(rel)) => rel,
        Ok(CheckOutcome::Pending) => panic!("expected a release, got Pending"),
        Err(e) => panic!("expected a release, got {:?}", e),
    }
}

#[test]
fn scenario_a_create_and_deposit() {
    let mut e = engine_with_inspection();
    let a = e.get_agreement(1).unwrap();
    assert_eq!(a.status(), AgreementStatus::Initialized);
    assert_eq!(a.buyer(), buyer());
    assert_eq!(a.seller(), seller());
    assert_eq!(a.total_amount(), 100);
    assert_eq!(a.conditions().len(), 1);
    assert_eq!(a.conditions()[0].condition_name(), "inspection");
    assert_eq!(flags(&e, 1, 0), (false, false));
    assert!(e.deposit(buyer(), 1, 100).is_ok());
    assert_eq!(e.get_agreement(1).unwrap().status(), AgreementStatus::Deposited);
}

#[test]
fn scenario_b_buyer_confirms() {
    let mut e = engine_with_inspection();
    e.deposit(buyer(), 1, 100).unwrap();
    let r = e.condition_check(buyer(), 1, "inspection".to_string());
    assert!(matches!(r, Ok(CheckOutcome::Pending)));
    assert_eq!(e.get_agreement(1).unwrap().status(), AgreementStatus::Checking);
    assert_eq!(flags(&e, 1, 0), (true, false));
}

#[test]
fn scenario_c_seller_confirms_and_funds_are_released() {
    let mut e = engine_with_inspection();
    e.deposit(buyer(), 1, 100).unwrap();
    e.condition_check(buyer(), 1, "inspection".to_string()).unwrap();
    let rel = expect_release(e.condition_check(seller(), 1, "inspection".to_string()));
    assert_eq!(rel.agreement_id(), 1);
    assert_eq!(rel.seller(), seller());
    assert_eq!(rel.amount(), 100);
    // nothing is stored before the transfer is settled
    assert_eq!(e.get_agreement(1).unwrap().status(), AgreementStatus::Checking);
    assert_eq!(flags(&e, 1, 0), (true, false));
    assert!(e.finalizing(rel, true).is_ok());
    assert_eq!(e.get_agreement(1).unwrap().status(), AgreementStatus::Finalized);
    assert_eq!(flags(&e, 1, 0), (true, true));
}

#[test]
fn scenario_d_confirmation_after_finalized() {
    let mut e = engine_with_inspection();
    e.deposit(buyer(), 1, 100).unwrap();
    e.condition_check(buyer(), 1, "inspection".to_string()).unwrap();
    let rel = expect_release(e.condition_check(seller(), 1, "inspection".to_string()));
    e.finalizing(rel, true).unwrap();
    let r = e.condition_check(buyer(), 1, "inspection".to_string());
    assert!(matches!(r, Err(EscrowError::AlreadyFinalized)));
    assert_eq!(e.get_agreement(1).unwrap().status(), AgreementStatus::Finalized);
}

#[test]
fn scenario_e_no_conditions() {
    let mut e = Escrow::new(account(0xE));
    let r = e.create_agreement(1, buyer(), seller(), 100, Vec::new());
    assert!(matches!(r, Err(EscrowError::NoConditions)));
    assert!(matches!(e.get_agreement(1), Err(EscrowError::AgreementNotFound)));
}

#[test]
fn scenario_f_deposit_by_stranger() {
    let mut e = engine_with_inspection();
    let r = e.deposit(account(0x77), 1, 100);
    assert!(matches!(r, Err(EscrowError::UnknownCaller)));
    assert_eq!(e.get_agreement(1).unwrap().status(), AgreementStatus::Initialized);
    let r = e.deposit(seller(), 1, 100);
    assert!(matches!(r, Err(EscrowError::UnknownCaller)));
}

#[test]
fn deposit_on_missing_agreement() {
    let mut e = Escrow::new(account(0xE));
    assert!(matches!(e.deposit(buyer(), 9, 100), Err(EscrowError::AgreementNotFound)));
}

#[test]
fn deposit_twice_is_refused() {
    let mut e = engine_with_inspection();
    e.deposit(buyer(), 1, 100).unwrap();
    assert!(matches!(e.deposit(buyer(), 1, 100), Err(EscrowError::CanNotDeposit)));
    assert_eq!(e.get_agreement(1).unwrap().status(), AgreementStatus::Deposited);
}

#[test]
fn deposit_too_small_is_refused() {
    let mut e = engine_with_inspection();
    assert!(matches!(e.deposit(buyer(), 1, 99), Err(EscrowError::CanNotDeposit)));
    assert_eq!(e.get_agreement(1).unwrap().status(), AgreementStatus::Initialized);
    assert!(e.deposit(buyer(), 1, 150).is_ok());
}

#[test]
fn deposit_after_finalized_is_refused() {
    let mut e = engine_with_inspection();
    e.condition_check(buyer(), 1, "inspection".to_string()).unwrap();
    let rel = expect_release(e.condition_check(seller(), 1, "inspection".to_string()));
    e.finalizing(rel, true).unwrap();
    assert!(matches!(e.deposit(buyer(), 1, 100), Err(EscrowError::AlreadyFinalized)));
}

#[test]
fn check_by_stranger_is_refused() {
    let mut e = engine_with_inspection();
    let r = e.condition_check(account(0x77), 1, "inspection".to_string());
    assert!(matches!(r, Err(EscrowError::UnknownCaller)));
    assert_eq!(flags(&e, 1, 0), (false, false));
    assert_eq!(e.get_agreement(1).unwrap().status(), AgreementStatus::Initialized);
}

#[test]
fn check_on_missing_agreement() {
    let mut e = Escrow::new(account(0xE));
    let r = e.condition_check(buyer(), 3, "inspection".to_string());
    assert!(matches!(r, Err(EscrowError::AgreementNotFound)));
}

#[test]
fn check_of_unknown_condition() {
    let mut e = engine_with_inspection();
    let r = e.condition_check(buyer(), 1, "survey".to_string());
    assert!(matches!(r, Err(EscrowError::CanNotCheck)));
    assert_eq!(e.get_agreement(1).unwrap().status(), AgreementStatus::Initialized);
}

#[test]
fn failed_transfer_leaves_agreement_unchanged() {
    let mut e = engine_with_inspection();
    e.deposit(buyer(), 1, 100).unwrap();
    e.condition_check(buyer(), 1, "inspection".to_string()).unwrap();
    let before = e.get_agreement(1).unwrap();
    let rel = expect_release(e.condition_check(seller(), 1, "inspection".to_string()));
    assert!(matches!(e.finalizing(rel, false), Err(EscrowError::CanNotTransfer)));
    assert_eq!(e.get_agreement(1).unwrap(), before);
    // the seller can confirm again, and the release is due again
    let rel = expect_release(e.condition_check(seller(), 1, "inspection".to_string()));
    assert!(e.finalizing(rel, true).is_ok());
    assert_eq!(e.get_agreement(1).unwrap().status(), AgreementStatus::Finalized);
}

#[test]
fn release_waits_for_every_condition() {
    let mut e = Escrow::new(account(0xE));
    e.create_agreement(2, buyer(), seller(), 40, conditions(&["inspection", "survey"])).unwrap();
    e.deposit(buyer(), 2, 40).unwrap();
    for name in ["inspection", "survey"] {
        assert!(matches!(e.condition_check(buyer(), 2, name.to_string()), Ok(CheckOutcome::Pending)));
    }
    assert!(matches!(
        e.condition_check(seller(), 2, "inspection".to_string()),
        Ok(CheckOutcome::Pending)
    ));
    assert_eq!(flags(&e, 2, 0), (true, true));
    assert_eq!(flags(&e, 2, 1), (true, false));
    let rel = expect_release(e.condition_check(seller(), 2, "survey".to_string()));
    assert_eq!(rel.amount(), 40);
    e.finalizing(rel, true).unwrap();
    assert_eq!(flags(&e, 2, 1), (true, true));
}

#[test]
fn duplicate_names_are_all_confirmed() {
    let mut e = Escrow::new(account(0xE));
    e.create_agreement(4, buyer(), seller(), 10, conditions(&["a", "b", "a"])).unwrap();
    e.condition_check(seller(), 4, "a".to_string()).unwrap();
    assert_eq!(flags(&e, 4, 0), (false, true));
    assert_eq!(flags(&e, 4, 1), (false, false));
    assert_eq!(flags(&e, 4, 2), (false, true));
}

#[test]
fn confirmation_before_deposit_is_accepted() {
    let mut e = engine_with_inspection();
    e.condition_check(seller(), 1, "inspection".to_string()).unwrap();
    assert_eq!(e.get_agreement(1).unwrap().status(), AgreementStatus::Checking);
    // a checking agreement takes no deposit: its status never moves back
    assert!(matches!(e.deposit(buyer(), 1, 100), Err(EscrowError::CanNotDeposit)));
    assert_eq!(e.get_agreement(1).unwrap().status(), AgreementStatus::Checking);
    assert_eq!(flags(&e, 1, 0), (false, true));
}

#[test]
fn deposit_on_checking_agreement_is_refused() {
    let mut e = engine_with_inspection();
    e.deposit(buyer(), 1, 100).unwrap();
    e.condition_check(buyer(), 1, "inspection".to_string()).unwrap();
    let before = e.get_agreement(1).unwrap();
    assert!(matches!(e.deposit(buyer(), 1, 100), Err(EscrowError::CanNotDeposit)));
    assert_eq!(e.get_agreement(1).unwrap(), before);
}

#[test]
fn second_release_of_same_agreement_is_refused() {
    let mut e = engine_with_inspection();
    e.condition_check(buyer(), 1, "inspection".to_string()).unwrap();
    let first = expect_release(e.condition_check(seller(), 1, "inspection".to_string()));
    let second = expect_release(e.condition_check(seller(), 1, "inspection".to_string()));
    assert!(e.release_is_current(&first));
    assert!(e.release_is_current(&second));
    assert!(e.finalizing(first, true).is_ok());
    assert!(!e.release_is_current(&second));
    let sealed = e.get_agreement(1).unwrap();
    assert!(matches!(e.finalizing(second, true), Err(EscrowError::AlreadyFinalized)));
    assert_eq!(e.get_agreement(1).unwrap(), sealed);
}

#[test]
fn release_of_replaced_agreement_is_refused() {
    let mut e = engine_with_inspection();
    e.condition_check(buyer(), 1, "inspection".to_string()).unwrap();
    let rel = expect_release(e.condition_check(seller(), 1, "inspection".to_string()));
    e.create_agreement(1, buyer(), seller(), 100, conditions(&["inspection"])).unwrap();
    assert!(!e.release_is_current(&rel));
    assert!(matches!(e.finalizing(rel, false), Err(EscrowError::AlreadyFinalized)));
    assert_eq!(e.get_agreement(1).unwrap().status(), AgreementStatus::Initialized);
    assert_eq!(flags(&e, 1, 0), (false, false));
}

#[test]
fn create_resets_given_confirmations() {
    let mut e = engine_with_inspection();
    e.condition_check(buyer(), 1, "inspection".to_string()).unwrap();
    let confirmed = e.get_agreement(1).unwrap().conditions().clone();
    assert!(confirmed[0].condition_check_from_buyer());
    e.create_agreement(5, buyer(), seller(), 7, confirmed).unwrap();
    assert_eq!(flags(&e, 5, 0), (false, false));
}

#[test]
fn create_replaces_existing_record() {
    let mut e = engine_with_inspection();
    e.deposit(buyer(), 1, 100).unwrap();
    e.create_agreement(1, seller(), buyer(), 5, conditions(&["x"])).unwrap();
    let a = e.get_agreement(1).unwrap();
    assert_eq!(a.status(), AgreementStatus::Initialized);
    assert_eq!(a.buyer(), seller());
    assert_eq!(a.total_amount(), 5);
}

#[test]
fn query_is_repeatable() {
    let mut e = engine_with_inspection();
    e.condition_check(buyer(), 1, "inspection".to_string()).unwrap();
    let first = e.get_agreement(1).unwrap();
    let second = e.get_agreement(1).unwrap();
    assert_eq!(first, second);
    assert!(matches!(e.get_agreement(2), Err(EscrowError::AgreementNotFound)));
    assert!(matches!(e.get_agreement(2), Err(EscrowError::AgreementNotFound)));
}

#[test]
fn status_moves_forward_through_a_deal() {
    let mut e = engine_with_inspection();
    let mut seen = vec![e.get_agreement(1).unwrap().status()];
    e.deposit(buyer(), 1, 100).unwrap();
    seen.push(e.get_agreement(1).unwrap().status());
    e.condition_check(buyer(), 1, "inspection".to_string()).unwrap();
    seen.push(e.get_agreement(1).unwrap().status());
    let rel = expect_release(e.condition_check(seller(), 1, "inspection".to_string()));
    e.finalizing(rel, true).unwrap();
    seen.push(e.get_agreement(1).unwrap().status());
    assert_eq!(
        seen,
        vec![
            AgreementStatus::Initialized,
            AgreementStatus::Deposited,
            AgreementStatus::Checking,
            AgreementStatus::Finalized
        ]
    );
    // nothing changes a finalized agreement
    let sealed = e.get_agreement(1).unwrap();
    assert!(e.deposit(buyer(), 1, 100).is_err());
    assert!(e.condition_check(seller(), 1, "inspection".to_string()).is_err());
    assert_eq!(e.get_agreement(1).unwrap(), sealed);
}

#[test]
fn account_comparison() {
    let a = account(1);
    let mut bytes = [1u8; 32];
    assert!(a.same_as(&AccountId::new(bytes)));
    bytes[31] = 2;
    assert!(!a.same_as(&AccountId::new(bytes)));
    assert_eq!(Escrow::new(a).holder(), a);
}

#[test]
fn deposit_by_stranger_on_checking_agreement() {
    let mut e = engine_with_inspection();
    e.condition_check(seller(), 1, "inspection".to_string()).unwrap();
    assert!(matches!(e.deposit(account(0x77), 1, 100), Err(EscrowError::UnknownCaller)));
    assert!(matches!(e.deposit(seller(), 1, 100), Err(EscrowError::UnknownCaller)));
    assert_eq!(e.get_agreement(1).unwrap().status(), AgreementStatus::Checking);
}

#[test]
fn create_over_finalized_agreement_is_refused() {
    let mut e = engine_with_inspection();
    e.condition_check(buyer(), 1, "inspection".to_string()).unwrap();
    let rel = expect_release(e.condition_check(seller(), 1, "inspection".to_string()));
    e.finalizing(rel, true).unwrap();
    let sealed = e.get_agreement(1).unwrap();
    let r = e.create_agreement(1, buyer(), seller(), 5, conditions(&["x"]));
    assert!(matches!(r, Err(EscrowError::AlreadyFinalized)));
    assert_eq!(e.get_agreement(1).unwrap(), sealed);
    // an empty list is still reported first
    let r = e.create_agreement(1, buyer(), seller(), 5, Vec::new());
    assert!(matches!(r, Err(EscrowError::NoConditions)));
}
