//! The properties of scalars on which the laws rest, shown of `i64`: the
//! 64-bit integers have each of them wherever the results fit.

use vstd::prelude::*;
use crate::scalar::negation_restores;
use crate::scalar::addition_commutes;
use crate::scalar::difference_with_itself_is;
use crate::scalar::difference_changes_sign;
use crate::scalar::division_undoes_multiplication;

verus! {

/// Negating twice restores every `i64` but the least, which has no
/// negation.
pub proof fn negation_restores_i64(a: i64)
    requires
        a != i64::MIN,
    ensures
        negation_restores(a),
{
}

/// Every two `i64` commute.
pub proof fn addition_commutes_i64(a: i64, b: i64)
    ensures
        addition_commutes(a, b),
{
}

/// Every `i64` minus itself is 0.
pub proof fn difference_with_itself_is_zero_i64(a: i64)
    ensures
        difference_with_itself_is(a, 0i64),
{
}

/// `p - q` is the negation of `q - p` where both fit in an `i64`.
pub proof fn difference_changes_sign_i64(p: i64, q: i64)
    requires
        i64::MIN < p - q <= i64::MAX,
    ensures
        difference_changes_sign(p, q),
{
}

/// `(a * k) / k` is `a` where `k` is not 0 and `a * k` fits in an `i64`.
pub proof fn division_undoes_multiplication_i64(a: i64, k: i64)
    requires
        k != 0,
        i64::MIN <= a * k <= i64::MAX,
    ensures
        division_undoes_multiplication(a, k),
{
    assert((a * k) / (k as int) == a) by (nonlinear_arith)
        requires
            k != 0,
    ;
    assert((-(a * k)) / (k as int) == -a) by (nonlinear_arith)
        requires
            k != 0,
    ;
}

} // verus!
