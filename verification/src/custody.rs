//! Movement of native value between account balances.
//!
//! The host keeps one native balance per account identity and hands the
//! protocol mutable access to the balances an operation touches. These two
//! primitives are the only ways the protocol moves value: an authorized
//! transfer from a payer into custody, and a credit out of a settlement.
//! Both are all-or-nothing.

use vstd::prelude::*;

use crate::errors::WagerError;

verus! {

/// Moves `amount` from one balance to another, or changes neither.
///
/// Fails with `InsufficientFunds` when the source holds less than `amount`,
/// and with `BalanceOverflow` when the destination cannot take it.
pub fn transfer(from: &mut u64, to: &mut u64, amount: u64) -> (r: Result<(), WagerError>)
    ensures
        r is Ok <==> (*old(from) >= amount && *old(to) + amount <= u64::MAX),
        r is Ok ==> *final(from) == *old(from) - amount && *final(to) == *old(to) + amount,
        r is Err ==> *final(from) == *old(from) && *final(to) == *old(to),
        (r matches Err(e) && e == WagerError::InsufficientFunds) <==> *old(from) < amount,
        (r matches Err(e) && e == WagerError::BalanceOverflow) <==> (*old(from) >= amount && *old(
            to,
        ) + amount > u64::MAX),
{
    if *from < amount {
        return Err(WagerError::InsufficientFunds);
    }
    match to.checked_add(amount) {
        None => Err(WagerError::BalanceOverflow),
        Some(new_to) => {
            *from = *from - amount;
            *to = new_to;
            Ok(())
        },
    }
}

/// Adds `amount` to a balance, or leaves it unchanged.
pub fn credit(balance: &mut u64, amount: u64) -> (r: Result<(), WagerError>)
    ensures
        r is Ok <==> *old(balance) + amount <= u64::MAX,
        r is Ok ==> *final(balance) == *old(balance) + amount,
        r is Err ==> *final(balance) == *old(balance) && (r matches Err(e) && e
            == WagerError::BalanceOverflow),
{
    match balance.checked_add(amount) {
        None => Err(WagerError::BalanceOverflow),
        Some(new_balance) => {
            *balance = new_balance;
            Ok(())
        },
    }
}

} // verus!
