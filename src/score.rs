//! The rules of a reputation score, on plain values.
use vstd::prelude::*;

verus! {

/// Why an increase of a score was turned down.
#[derive(Clone, Copy, Debug, PartialEq, Eq, Structural)]
pub enum ReputationError {
    /// The increase was zero: only positive amounts are accepted.
    ZeroAmount,
    /// The raised score would not fit in a `u32`.
    Overflow,
    /// The entry stored for the address does not hold a `u32` score.
    NotAScore,
}

/// The score of an address whose stored entry is `stored`: an address that
/// has never been raised has score zero.
pub open spec fn score_of(stored: Option<u32>) -> nat {
    match stored {
        Some(s) => s as nat,
        None => 0,
    }
}

/// What raising the score held in `stored` by `amount` gives: the new score,
/// or the reason it is refused.
pub open spec fn raised(stored: Option<u32>, amount: u32) -> Result<u32, ReputationError> {
    if amount == 0 {
        Err(ReputationError::ZeroAmount)
    } else if score_of(stored) + amount > u32::MAX {
        Err(ReputationError::Overflow)
    } else {
        Ok((score_of(stored) + amount) as u32)
    }
}

/// Raises the score held in `stored` by `amount`.
///
/// A zero `amount` is refused with `ZeroAmount`; a sum that does not fit in
/// a `u32` is refused with `Overflow`; otherwise the result is the old score
/// plus `amount`.
pub fn raise_score(stored: Option<u32>, amount: u32) -> (r: Result<u32, ReputationError>)
    ensures
        r == raised(stored, amount),
        r == Err::<u32, ReputationError>(ReputationError::ZeroAmount) <==> amount == 0,
        r matches Ok(n) ==> n == score_of(stored) + amount,
{
    if amount == 0 {
        return Err(ReputationError::ZeroAmount);
    }
    let current: u32 = match stored {
        Some(s) => s,
        None => 0,
    };
    match current.checked_add(amount) {
        Some(n) => Ok(n),
        None => Err(ReputationError::Overflow),
    }
}

} // verus!
