//! The auxiliary per-authority counter.
//!
//! A single-field counter with overflow- and underflow-checked steps; it has
//! no invariants beyond those checks and is independent of the wagering
//! protocol.

use vstd::prelude::*;

use crate::errors::CounterError;
use crate::identity::Identity;

verus! {

/// One counter record, owned by its authority.
pub struct Counter {
    /// The only identity allowed to mutate this counter; immutable.
    pub authority: Identity,
    /// The count, starting at zero.
    pub count: u64,
    /// The bump byte of the record's derived identity.
    pub bump: u8,
}

/// Creates a counter at zero for `authority`.
pub fn initialize(authority: Identity, bump: u8) -> (c: Counter)
    ensures
        c.authority@ == authority@,
        c.count == 0,
        c.bump == bump,
{
    Counter { authority, count: 0, bump }
}

/// Adds 1 to the count, or fails with `Overflow` at the maximum.
pub fn increment(counter: &mut Counter) -> (r: Result<(), CounterError>)
    ensures
        r is Ok <==> old(counter).count < u64::MAX,
        r is Ok ==> final(counter).count == old(counter).count + 1,
        r is Err ==> *final(counter) == *old(counter) && (r matches Err(e) && e == CounterError::Overflow),
        final(counter).authority@ == old(counter).authority@,
        final(counter).bump == old(counter).bump,
{
    match counter.count.checked_add(1) {
        None => Err(CounterError::Overflow),
        Some(new_count) => {
            counter.count = new_count;
            Ok(())
        },
    }
}

/// Subtracts 1 from the count, or fails with `Underflow` at zero.
pub fn decrement(counter: &mut Counter) -> (r: Result<(), CounterError>)
    ensures
        r is Ok <==> old(counter).count > 0,
        r is Ok ==> final(counter).count == old(counter).count - 1,
        r is Err ==> *final(counter) == *old(counter) && (r matches Err(e) && e == CounterError::Underflow),
        final(counter).authority@ == old(counter).authority@,
        final(counter).bump == old(counter).bump,
{
    match counter.count.checked_sub(1) {
        None => Err(CounterError::Underflow),
        Some(new_count) => {
            counter.count = new_count;
            Ok(())
        },
    }
}

} // verus!
