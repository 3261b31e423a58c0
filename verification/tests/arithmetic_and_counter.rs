use wager::counter::{decrement, increment, initialize};
use wager::custody::{credit, transfer};
use wager::errors::{CounterError, WagerError};
use wager::identity::Identity;

fn ident(b: u8) -> Identity {
    Identity { bytes: [b; 32] }
}

#[test]
fn transfer_moves_the_exact_amount() {
    let mut from: u64 = 500;
    let mut to: u64 = 20;
    transfer(&mut from, &mut to, 123).expect("covered");
    assert_eq!(from, 377);
    assert_eq!(to, 143);
}

#[test]
fn transfer_rejects_insufficient_source() {
    let mut from: u64 = 100;
    let mut to: u64 = 20;
    let r = transfer(&mut from, &mut to, 101);
    assert!(matches!(r, Err(WagerError::InsufficientFunds)));
    assert_eq!(from, 100);
    assert_eq!(to, 20);
}

#[test]
fn transfer_rejects_destination_overflow() {
    let mut from: u64 = 100;
    let mut to: u64 = u64::MAX - 50;
    let r = transfer(&mut from, &mut to, 51);
    assert!(matches!(r, Err(WagerError::BalanceOverflow)));
    assert_eq!(from, 100);
    assert_eq!(to, u64::MAX - 50);
}

#[test]
fn credit_adds_or_leaves_unchanged() {
    let mut balance: u64 = 10;
    credit(&mut balance, 90).expect("fits");
    assert_eq!(balance, 100);
    let r = credit(&mut balance, u64::MAX);
    assert!(matches!(r, Err(WagerError::BalanceOverflow)));
    assert_eq!(balance, 100);
}

#[test]
fn counter_starts_at_zero() {
    let counter = initialize(ident(3), 7);
    assert_eq!(counter.count, 0);
    assert_eq!(counter.authority, ident(3));
    assert_eq!(counter.bump, 7);
}

#[test]
fn counter_steps_up_and_down() {
    let mut counter = initialize(ident(3), 7);
    increment(&mut counter).expect("below maximum");
    increment(&mut counter).expect("below maximum");
    assert_eq!(counter.count, 2);
    decrement(&mut counter).expect("above zero");
    assert_eq!(counter.count, 1);
    assert_eq!(counter.authority, ident(3));
}

#[test]
fn increment_at_maximum_fails_with_overflow() {
    let mut counter = initialize(ident(3), 7);
    counter.count = u64::MAX;
    let r = increment(&mut counter);
    assert!(matches!(r, Err(CounterError::Overflow)));
    assert_eq!(counter.count, u64::MAX);
}

#[test]
fn decrement_at_zero_fails_with_underflow() {
    let mut counter = initialize(ident(3), 7);
    let r = decrement(&mut counter);
    assert!(matches!(r, Err(CounterError::Underflow)));
    assert_eq!(counter.count, 0);
}
