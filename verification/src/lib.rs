//! Four stateless operations on `usize` operands.
//!
//! `add` is the sum of its operands, reduced modulo the number of `usize`
//! values when the exact sum does not fit. `subtract`, `multiply` and `divide`
//! are one and the same operation: each yields the difference of its operands,
//! and reports an underflow when that difference would be negative. In
//! particular `multiply` forms no product and `divide` no quotient, so a zero
//! second operand is no special case for `divide`.

use vstd::prelude::*;

pub mod laws;

verus! {

/// The one way in which an operation of this library fails.
#[derive(Clone, Copy, Debug, PartialEq, Eq, Structural)]
pub enum ArithmeticError {
    /// The second operand is greater than the first: the true difference is
    /// negative and has no `usize` to stand for it.
    Underflow,
}

/// How many values `usize` has: one more than its greatest.
pub open spec fn modulus() -> int {
    usize::MAX + 1
}

/// The sum of two operands as `usize` arithmetic sees it: the exact sum
/// reduced modulo [`modulus`].
pub open spec fn wrapped_sum(left: usize, right: usize) -> usize {
    ((left + right) % modulus()) as usize
}

/// What the three difference operations owe: the exact difference where it is
/// not negative, and an underflow where it is.
pub open spec fn difference(left: usize, right: usize) -> Result<usize, ArithmeticError> {
    if left >= right {
        Ok((left - right) as usize)
    } else {
        Err(ArithmeticError::Underflow)
    }
}

/// Returns `left + right`. A sum beyond `usize::MAX` wraps around: the result
/// is then the exact sum less [`modulus`]. No input is refused.
pub fn add(left: usize, right: usize) -> (sum: usize)
    ensures
        sum == wrapped_sum(left, right),
        left + right <= usize::MAX ==> sum == left + right,
        left + right > usize::MAX ==> sum == left + right - modulus(),
{
    proof {
        laws::lemma_wrapped_sum_cases(left, right);
    }
    left.wrapping_add(right)
}

/// Returns `left - right`, or the underflow error when `right` is greater
/// than `left`. The difference is never wrapped.
pub fn subtract(left: usize, right: usize) -> (outcome: Result<usize, ArithmeticError>)
    ensures
        outcome == difference(left, right),
        left >= right ==> outcome == Ok::<usize, ArithmeticError>((left - right) as usize),
        left < right ==> outcome == Err::<usize, ArithmeticError>(ArithmeticError::Underflow),
{
    if left < right {
        Err(ArithmeticError::Underflow)
    } else {
        Ok(left - right)
    }
}

/// Returns the difference `left - right`, exactly as [`subtract`] does, and
/// not a product: `multiply(20, 20)` is `Ok(0)`.
pub fn multiply(left: usize, right: usize) -> (outcome: Result<usize, ArithmeticError>)
    ensures
        outcome == difference(left, right),
        left >= right ==> outcome == Ok::<usize, ArithmeticError>((left - right) as usize),
        left < right ==> outcome == Err::<usize, ArithmeticError>(ArithmeticError::Underflow),
{
    subtract(left, right)
}

/// Returns the difference `left - right`, exactly as [`subtract`] does, and
/// not a quotient: `divide(20, 20)` is `Ok(0)`, and `divide(left, 0)` is
/// `Ok(left)`.
pub fn divide(left: usize, right: usize) -> (outcome: Result<usize, ArithmeticError>)
    ensures
        outcome == difference(left, right),
        left >= right ==> outcome == Ok::<usize, ArithmeticError>((left - right) as usize),
        left < right ==> outcome == Err::<usize, ArithmeticError>(ArithmeticError::Underflow),
{
    subtract(left, right)
}

} // verus!
