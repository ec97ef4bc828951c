use kitties::erc20::{Approval, Erc20, Erc20Event, Transfer};

const ALICE: u64 = 1;
const BOB: u64 = 0;

#[test]
fn it_works() {
    let erc20 = Erc20::new(ALICE, 11);
    assert_eq!(erc20.total_supply(), 11);
}

#[test]
fn balance_works() {
    let contract = Erc20::new(ALICE, 100);
    assert_eq!(contract.total_supply(), 100);
    assert_eq!(contract.balance_of(ALICE), 100);
    assert_eq!(contract.balance_of(BOB), 0);
}

#[test]
fn transfer_from_works() {
    let mut contract = Erc20::new(ALICE, 100);
    assert_eq!(contract.balance_of(ALICE), 100);
    contract.approve(ALICE, ALICE, 20);
    contract.transfer_from(ALICE, ALICE, BOB, 10);
    assert_eq!(contract.balance_of(BOB), 10);
}

#[test]
fn allowances_works() {
    let mut contract = Erc20::new(ALICE, 100);
    assert_eq!(contract.balance_of(ALICE), 100);
    contract.approve(ALICE, ALICE, 200);
    assert_eq!(contract.allowance(ALICE, ALICE), 200);

    assert!(contract.transfer_from(ALICE, ALICE, BOB, 50));
    assert_eq!(contract.balance_of(BOB), 50);
    assert_eq!(contract.allowance(ALICE, ALICE), 150);

    assert!(!contract.transfer_from(ALICE, ALICE, BOB, 100));
    assert_eq!(contract.balance_of(BOB), 50);
    assert_eq!(contract.allowance(ALICE, ALICE), 150);
}

#[test]
fn transfer_moves_tokens_and_reports() {
    let mut c = Erc20::new(ALICE, 100);
    assert!(c.transfer(ALICE, 7, 30));
    assert_eq!(c.balance_of(ALICE), 70);
    assert_eq!(c.balance_of(7), 30);
    assert!(!c.transfer(7, ALICE, 31));
    assert_eq!(c.balance_of(7), 30);
    assert_eq!(
        c.events().clone(),
        vec![
            Erc20Event::Transfer(Transfer { from: None, to: Some(ALICE), value: 100 }),
            Erc20Event::Transfer(Transfer { from: Some(ALICE), to: Some(7), value: 30 }),
        ]
    );
}

#[test]
fn transfer_from_needs_allowance() {
    let mut c = Erc20::new(ALICE, 100);
    assert!(!c.transfer_from(5, ALICE, 6, 1));
    assert!(c.approve(ALICE, 5, 10));
    assert_eq!(
        c.events()[1],
        Erc20Event::Approval(Approval { owner: ALICE, spender: 5, value: 10 })
    );
    assert!(c.transfer_from(5, ALICE, 6, 10));
    assert_eq!(c.allowance(ALICE, 5), 0);
    assert_eq!(c.balance_of(6), 10);
    assert_eq!(c.balance_of(ALICE), 90);
}

#[test]
fn transfer_credit_overflow_fails() {
    let mut c = Erc20::new(ALICE, u128::MAX);
    assert!(!c.transfer(ALICE, ALICE, 1));
    assert_eq!(c.balance_of(ALICE), u128::MAX);
}
