//! The fund transfer engine: overflow-checked movement of value units
//! between an escrow holding and participant balances.

use vstd::prelude::*;

use crate::error::EscrowError;

verus! {

/// Removes `amount` from `balance`. Fails with `InsufficientEscrow`, moving
/// nothing, when the balance cannot cover the debit.
pub fn debit(balance: &mut u64, amount: u64) -> (r: Result<(), EscrowError>)
    ensures
        *old(balance) >= amount ==> r is Ok && *final(balance) == *old(balance) - amount,
        *old(balance) < amount ==> r == Err::<(), EscrowError>(EscrowError::InsufficientEscrow)
            && *final(balance) == *old(balance),
{
    if *balance >= amount {
        *balance = *balance - amount;
        Ok(())
    } else {
        Err(EscrowError::InsufficientEscrow)
    }
}

/// Adds `amount` to `balance`. Fails with `Overflow`, moving nothing, when
/// the sum would not fit in 64 bits.
pub fn credit(balance: &mut u64, amount: u64) -> (r: Result<(), EscrowError>)
    ensures
        *old(balance) + amount <= u64::MAX ==> r is Ok
            && *final(balance) == *old(balance) + amount,
        *old(balance) + amount > u64::MAX ==> r == Err::<(), EscrowError>(EscrowError::Overflow)
            && *final(balance) == *old(balance),
{
    if amount <= u64::MAX - *balance {
        *balance = *balance + amount;
        Ok(())
    } else {
        Err(EscrowError::Overflow)
    }
}

/// Moves `amount` from `from` to `to` as one atomic step: the debit's
/// sufficiency check and the credit's overflow check both run before either
/// balance changes, so a failed transfer moves nothing. The debit is checked
/// first, so an uncovered debit reports `InsufficientEscrow` even when the
/// credit would also overflow.
pub fn transfer(from: &mut u64, to: &mut u64, amount: u64) -> (r: Result<(), EscrowError>)
    ensures
        *old(from) < amount ==> r == Err::<(), EscrowError>(EscrowError::InsufficientEscrow),
        *old(from) >= amount && *old(to) + amount > u64::MAX
            ==> r == Err::<(), EscrowError>(EscrowError::Overflow),
        *old(from) >= amount && *old(to) + amount <= u64::MAX ==> r is Ok,
        r is Ok ==> *final(from) == *old(from) - amount && *final(to) == *old(to) + amount,
        r is Err ==> *final(from) == *old(from) && *final(to) == *old(to),
        *final(from) + *final(to) == *old(from) + *old(to),
{
    if *from < amount {
        return Err(EscrowError::InsufficientEscrow);
    }
    if amount > u64::MAX - *to {
        return Err(EscrowError::Overflow);
    }
    debit(from, amount)?;
    credit(to, amount)?;
    Ok(())
}

} // verus!
