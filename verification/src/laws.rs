//! Laws of the wrapped sum, stated over the model that `add` is specified by.

use crate::{modulus, wrapped_sum};
use vstd::arithmetic::div_mod::{lemma_fundamental_div_mod_converse_mod, lemma_small_mod};
use vstd::prelude::*;

verus! {

/// The wrapped sum is the exact sum where that fits in a `usize`, and the
/// exact sum less the modulus where it does not.
pub proof fn lemma_wrapped_sum_cases(left: usize, right: usize)
    ensures
        left + right <= usize::MAX ==> wrapped_sum(left, right) == left + right,
        left + right > usize::MAX ==> wrapped_sum(left, right) == left + right - modulus(),
{
    let exact: int = left + right;
    let m: int = modulus();
    if exact < m {
        lemma_small_mod(exact as nat, m as nat);
    } else {
        lemma_fundamental_div_mod_converse_mod(exact, m, 1, exact - m);
    }
}

/// Addition is commutative: the operands of a wrapped sum may change places.
pub proof fn lemma_wrapped_sum_commutative(a: usize, b: usize)
    ensures
        wrapped_sum(a, b) == wrapped_sum(b, a),
{
}

/// Addition is associative: three operands give the same wrapped sum however
/// they are grouped, whether or not an intermediate sum wraps.
pub proof fn lemma_wrapped_sum_associative(a: usize, b: usize, c: usize)
    ensures
        wrapped_sum(wrapped_sum(a, b), c) == wrapped_sum(a, wrapped_sum(b, c)),
{
    lemma_wrapped_sum_cases(a, b);
    lemma_wrapped_sum_cases(b, c);
    lemma_wrapped_sum_cases(wrapped_sum(a, b), c);
    lemma_wrapped_sum_cases(a, wrapped_sum(b, c));
}

} // verus!
