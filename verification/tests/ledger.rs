use erc20::{Approve, Erc20, Error, Event, Transfer};

const ALICE: u128 = 1;
const BOB: u128 = 2;
const CHARLIE: u128 = 3;
const DAVE: u128 = 4;
const CAROL: u128 = 5;

#[test]
fn constructor_works() {
    let erc20 = Erc20::new(10000, ALICE);
    assert_eq!(erc20.total_supply(), 10000);
    assert_eq!(erc20.balance_of(ALICE), 10000);

    let emitted_events = erc20.events();
    let event = &emitted_events[0];
    match event {
        Event::Transfer(Transfer { from, to, value }) => {
            assert!(from.is_none(), "mint from error");
            assert_eq!(*to, Some(ALICE), "mint to error");
            assert_eq!(*value, 10000, "mint value error");
        }
        _ => panic!("match error"),
    }
}

#[test]
fn transfer_works() {
    let mut erc20 = Erc20::new(10000, ALICE);

    let res = erc20.transfer(ALICE, BOB, 12);
    assert!(res.is_ok());
    assert_eq!(erc20.balance_of(ALICE), 10000 - 12);
    assert_eq!(erc20.balance_of(BOB), 12);
}

#[test]
fn invalid_transfer_should_fail() {
    let mut erc20 = Erc20::new(10000, ALICE);

    let res = erc20.transfer(BOB, CHARLIE, 12);
    assert!(res.is_err());
    assert_eq!(res, Err(Error::InsufficientBalance));
}

#[test]
fn default_works() {
    let total_supply = 123;
    let mut erc20 = Erc20::new(total_supply, ALICE);

    let res = erc20.transfer(ALICE, BOB, 2);
    assert!(res.is_ok());
    assert_eq!(erc20.balance_of(ALICE), 121);
}

#[test]
fn transfer_chain_scenario() {
    let mut erc20 = Erc20::new(10000, ALICE);

    assert!(erc20.transfer(ALICE, BOB, 12).is_ok());
    assert_eq!(erc20.balance_of(ALICE), 9988);
    assert_eq!(erc20.balance_of(BOB), 12);

    assert!(erc20.transfer(BOB, CHARLIE, 12).is_ok());
    assert_eq!(erc20.balance_of(BOB), 0);
    assert_eq!(erc20.balance_of(CHARLIE), 12);

    let res = erc20.transfer(CHARLIE, DAVE, 9999);
    assert_eq!(res, Err(Error::InsufficientBalance));
    assert_eq!(erc20.balance_of(CHARLIE), 12);
    assert_eq!(erc20.balance_of(DAVE), 0);
    assert_eq!(erc20.balance_of(ALICE), 9988);
    assert_eq!(erc20.balance_of(BOB), 0);
}

#[test]
fn transfer_emits_event() {
    let mut erc20 = Erc20::new(10000, ALICE);
    assert!(erc20.transfer(ALICE, BOB, 12).is_ok());

    let events = erc20.events();
    assert_eq!(events.len(), 2);
    assert_eq!(
        events[1],
        Event::Transfer(Transfer {
            from: Some(ALICE),
            to: Some(BOB),
            value: 12,
        })
    );
}

#[test]
fn failed_transfer_emits_nothing() {
    let mut erc20 = Erc20::new(10, ALICE);
    assert!(erc20.transfer(BOB, ALICE, 1).is_err());
    assert_eq!(erc20.events().len(), 1);
}

#[test]
fn transfer_of_whole_balance_empties_sender() {
    let mut erc20 = Erc20::new(500, ALICE);
    assert!(erc20.transfer(ALICE, BOB, 500).is_ok());
    assert_eq!(erc20.balance_of(ALICE), 0);
    assert_eq!(erc20.balance_of(BOB), 500);
}

#[test]
fn transfer_to_self_keeps_balance_but_notifies() {
    let mut erc20 = Erc20::new(77, ALICE);
    assert!(erc20.transfer(ALICE, ALICE, 30).is_ok());
    assert_eq!(erc20.balance_of(ALICE), 77);
    assert_eq!(erc20.events().len(), 2);
    assert_eq!(
        erc20.events()[1],
        Event::Transfer(Transfer {
            from: Some(ALICE),
            to: Some(ALICE),
            value: 30,
        })
    );
}

#[test]
fn transfer_of_zero_from_empty_account_works() {
    let mut erc20 = Erc20::new(9, ALICE);
    assert!(erc20.transfer(BOB, ALICE, 0).is_ok());
    assert_eq!(erc20.balance_of(ALICE), 9);
    assert_eq!(erc20.balance_of(BOB), 0);
}

#[test]
fn whole_supply_moves_at_the_largest_amount() {
    let mut erc20 = Erc20::new(u128::MAX, ALICE);
    assert!(erc20.transfer(ALICE, BOB, u128::MAX).is_ok());
    assert_eq!(erc20.balance_of(ALICE), 0);
    assert_eq!(erc20.balance_of(BOB), u128::MAX);

    // A self-transfer of the largest balance must not wrap either.
    assert!(erc20.transfer(BOB, BOB, u128::MAX).is_ok());
    assert_eq!(erc20.balance_of(BOB), u128::MAX);
}

#[test]
fn approve_sets_allowance_and_notifies() {
    let mut erc20 = Erc20::new(10000, ALICE);
    assert!(erc20.approve(ALICE, BOB, 50).is_ok());
    assert_eq!(erc20.allowance(ALICE, BOB), 50);
    assert_eq!(erc20.allowance(BOB, ALICE), 0);
    assert_eq!(
        erc20.events()[1],
        Event::Approve(Approve {
            from: ALICE,
            to: BOB,
            value: 50,
        })
    );
}

#[test]
fn approve_overwrites_earlier_allowance() {
    let mut erc20 = Erc20::new(10000, ALICE);
    assert!(erc20.approve(ALICE, BOB, 77).is_ok());
    assert!(erc20.approve(ALICE, BOB, 5).is_ok());
    assert_eq!(erc20.allowance(ALICE, BOB), 5);
}

#[test]
fn approve_of_zero_revokes() {
    let mut erc20 = Erc20::new(10000, ALICE);
    assert!(erc20.approve(ALICE, BOB, 50).is_ok());
    assert!(erc20.approve(ALICE, BOB, 0).is_ok());
    assert_eq!(erc20.allowance(ALICE, BOB), 0);
}

#[test]
fn transfer_from_consumes_allowance_and_moves_balance() {
    let mut erc20 = Erc20::new(10000, ALICE);
    assert!(erc20.approve(ALICE, BOB, 50).is_ok());

    let res = erc20.transfer_from(BOB, ALICE, CAROL, 30);
    assert!(res.is_ok());
    assert_eq!(erc20.allowance(ALICE, BOB), 20);
    assert_eq!(erc20.balance_of(ALICE), 9970);
    assert_eq!(erc20.balance_of(CAROL), 30);
    assert_eq!(erc20.balance_of(BOB), 0);
    assert_eq!(
        erc20.events()[2],
        Event::Transfer(Transfer {
            from: Some(ALICE),
            to: Some(CAROL),
            value: 30,
        })
    );
}

#[test]
fn transfer_from_beyond_allowance_fails() {
    let mut erc20 = Erc20::new(10000, ALICE);
    assert!(erc20.approve(ALICE, BOB, 50).is_ok());

    let res = erc20.transfer_from(BOB, ALICE, CAROL, 60);
    assert_eq!(res, Err(Error::InsufficientAllowance));
    assert_eq!(erc20.allowance(ALICE, BOB), 50);
    assert_eq!(erc20.balance_of(ALICE), 10000);
    assert_eq!(erc20.balance_of(CAROL), 0);
}

#[test]
fn transfer_from_beyond_balance_leaves_allowance_unconsumed() {
    let mut erc20 = Erc20::new(10, ALICE);
    assert!(erc20.approve(ALICE, BOB, 100).is_ok());

    let res = erc20.transfer_from(BOB, ALICE, CAROL, 50);
    assert_eq!(res, Err(Error::InsufficientBalance));
    assert_eq!(erc20.allowance(ALICE, BOB), 100);
    assert_eq!(erc20.balance_of(ALICE), 10);
    assert_eq!(erc20.balance_of(CAROL), 0);
    assert_eq!(erc20.events().len(), 2);
}

#[test]
fn supply_stays_fixed_across_operations() {
    let mut erc20 = Erc20::new(1000, ALICE);
    assert!(erc20.transfer(ALICE, BOB, 400).is_ok());
    assert!(erc20.approve(BOB, CHARLIE, 300).is_ok());
    assert!(erc20.transfer_from(CHARLIE, BOB, DAVE, 250).is_ok());
    assert!(erc20.transfer(DAVE, ALICE, 100).is_ok());
    assert!(erc20.transfer(ALICE, ALICE, 700).is_ok());

    assert_eq!(erc20.total_supply(), 1000);
    let held: u128 = erc20.balance_of(ALICE)
        + erc20.balance_of(BOB)
        + erc20.balance_of(CHARLIE)
        + erc20.balance_of(DAVE)
        + erc20.balance_of(CAROL);
    assert_eq!(held, 1000);
}

#[test]
fn transfer_helper_moves_between_named_accounts() {
    let mut erc20 = Erc20::new(100, ALICE);
    assert!(erc20.transfer_helper(&ALICE, &BOB, 40).is_ok());
    assert_eq!(erc20.balance_of(ALICE), 60);
    assert_eq!(erc20.balance_of(BOB), 40);
    assert_eq!(
        erc20.transfer_helper(&ALICE, &BOB, 61),
        Err(Error::InsufficientBalance)
    );
}
