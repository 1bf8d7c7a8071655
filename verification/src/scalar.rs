//! What the library asks of the coordinate type, and what it says of it.
//!
//! The library computes with any scalar type `T` that has the standard
//! operators. `vstd` gives every operator a condition under which it may be
//! applied (`add_req`, `mul_req`, ...) and a value (`add_spec`, `mul_spec`,
//! ...), and a scalar type says whether its operator returns that value
//! (`obeys_add_spec()`, ...). The machine integers do: their condition is
//! that the result fits, and the value is the exact one. A type whose
//! operators are specified otherwise, or in part only, does not.
//!
//! So that a contract holds of every scalar type, the predicates of the first
//! part relate an operator's operands to what it returned: `is_sum(a, b, s)`
//! says that `a + b` may evaluate to `s`, and with it holds all that the `+`
//! of `T` is specified to ensure. For a type that returns the specified
//! value, `s` can then only be `a.add_spec(b)`.
//!
//! A formula such as `a * b + c * d` applies an operator to the results of
//! others. The second part says when every step of such a formula is
//! allowed, whatever the steps before it gave, and which values the formula
//! may then evaluate to.
//!
//! The third part names the properties of single scalars on which the laws
//! of the library rest.

use vstd::prelude::*;
use vstd::std_specs::ops::AddSpec;
use vstd::std_specs::ops::SubSpec;
use vstd::std_specs::ops::MulSpec;
use vstd::std_specs::ops::DivSpec;
use vstd::std_specs::ops::NegSpec;
use core::ops::Add;
use core::ops::Sub;
use core::ops::Mul;
use core::ops::Div;
use core::ops::Neg;

verus! {

/// `-a` may evaluate to `r`.
pub open spec fn is_negation<T: Neg<Output = T>>(a: T, r: T) -> bool {
    call_ensures(T::neg, (a,), r)
}

/// `a + b` may evaluate to `r`.
pub open spec fn is_sum<T: Add<Output = T>>(a: T, b: T, r: T) -> bool {
    call_ensures(T::add, (a, b), r)
}

/// `a - b` may evaluate to `r`.
pub open spec fn is_difference<T: Sub<Output = T>>(a: T, b: T, r: T) -> bool {
    call_ensures(T::sub, (a, b), r)
}

/// `a * b` may evaluate to `r`.
pub open spec fn is_product<T: Mul<Output = T>>(a: T, b: T, r: T) -> bool {
    call_ensures(T::mul, (a, b), r)
}

/// `a / b` may evaluate to `r`.
pub open spec fn is_quotient<T: Div<Output = T>>(a: T, b: T, r: T) -> bool {
    call_ensures(T::div, (a, b), r)
}

/// `a == b` may evaluate to `r`.
pub open spec fn is_equal<T: PartialEq>(a: T, b: T, r: bool) -> bool {
    call_ensures(T::eq, (&a, &b), r)
}

/// The value of `a * b + c * d`.
pub open spec fn sum_of_products<T: Mul<Output = T> + Add<Output = T>>(
    a: T,
    b: T,
    c: T,
    d: T,
) -> T {
    a.mul_spec(b).add_spec(c.mul_spec(d))
}

/// Every step of `a * b + c * d` is allowed.
pub open spec fn sum_of_products_req<T: Mul<Output = T> + Add<Output = T>>(
    a: T,
    b: T,
    c: T,
    d: T,
) -> bool {
    &&& a.mul_req(b)
    &&& c.mul_req(d)
    &&& forall|p: T, q: T|
        is_product(a, b, p) && is_product(c, d, q) ==> #[trigger] p.add_req(q)
}

/// `a * b + c * d` may evaluate to `r`.
pub open spec fn is_sum_of_products<T: Mul<Output = T> + Add<Output = T>>(
    a: T,
    b: T,
    c: T,
    d: T,
    r: T,
) -> bool {
    exists|p: T, q: T| is_product(a, b, p) && is_product(c, d, q) && #[trigger] is_sum(p, q, r)
}

/// The value of `a * b + c * d + e * f`, summed from the left.
pub open spec fn sum_of_three_products<T: Mul<Output = T> + Add<Output = T>>(
    a: T,
    b: T,
    c: T,
    d: T,
    e: T,
    f: T,
) -> T {
    a.mul_spec(b).add_spec(c.mul_spec(d)).add_spec(e.mul_spec(f))
}

/// Every step of `a * b + c * d + e * f`, summed from the left, is allowed.
pub open spec fn sum_of_three_products_req<T: Mul<Output = T> + Add<Output = T>>(
    a: T,
    b: T,
    c: T,
    d: T,
    e: T,
    f: T,
) -> bool {
    &&& sum_of_products_req(a, b, c, d)
    &&& e.mul_req(f)
    &&& forall|s: T, t: T|
        is_sum_of_products(a, b, c, d, s) && is_product(e, f, t) ==> #[trigger] s.add_req(t)
}

/// `a * b + c * d + e * f`, summed from the left, may evaluate to `r`.
pub open spec fn is_sum_of_three_products<T: Mul<Output = T> + Add<Output = T>>(
    a: T,
    b: T,
    c: T,
    d: T,
    e: T,
    f: T,
    r: T,
) -> bool {
    exists|s: T, t: T|
        is_sum_of_products(a, b, c, d, s) && is_product(e, f, t) && #[trigger] is_sum(s, t, r)
}

/// The value of `a * b - c * d`.
pub open spec fn difference_of_products<T: Mul<Output = T> + Sub<Output = T>>(
    a: T,
    b: T,
    c: T,
    d: T,
) -> T {
    a.mul_spec(b).sub_spec(c.mul_spec(d))
}

/// Every step of `a * b - c * d` is allowed.
pub open spec fn difference_of_products_req<T: Mul<Output = T> + Sub<Output = T>>(
    a: T,
    b: T,
    c: T,
    d: T,
) -> bool {
    &&& a.mul_req(b)
    &&& c.mul_req(d)
    &&& forall|p: T, q: T|
        is_product(a, b, p) && is_product(c, d, q) ==> #[trigger] p.sub_req(q)
}

/// `a * b - c * d` may evaluate to `r`.
pub open spec fn is_difference_of_products<T: Mul<Output = T> + Sub<Output = T>>(
    a: T,
    b: T,
    c: T,
    d: T,
    r: T,
) -> bool {
    exists|p: T, q: T|
        is_product(a, b, p) && is_product(c, d, q) && #[trigger] is_difference(p, q, r)
}

/// Computes `a * b + c * d`.
pub(crate) fn eval_sum_of_products<T: Mul<Output = T> + Add<Output = T>>(
    a: T,
    b: T,
    c: T,
    d: T,
) -> (r: T)
    requires
        sum_of_products_req(a, b, c, d),
    ensures
        is_sum_of_products(a, b, c, d, r),
        T::obeys_mul_spec() && T::obeys_add_spec() ==> r == sum_of_products(a, b, c, d),
{
    let p = a * b;
    let q = c * d;
    let r = p + q;
    assert(is_sum(p, q, r));
    r
}

/// Computes `a * b - c * d`.
pub(crate) fn eval_difference_of_products<T: Mul<Output = T> + Sub<Output = T>>(
    a: T,
    b: T,
    c: T,
    d: T,
) -> (r: T)
    requires
        difference_of_products_req(a, b, c, d),
    ensures
        is_difference_of_products(a, b, c, d, r),
        T::obeys_mul_spec() && T::obeys_sub_spec() ==> r == difference_of_products(a, b, c, d),
{
    let p = a * b;
    let q = c * d;
    let r = p - q;
    assert(is_difference(p, q, r));
    r
}

/// Negating `a` twice gives `a` back.
pub open spec fn negation_restores<T: Neg<Output = T>>(a: T) -> bool {
    a.neg_spec().neg_spec() == a
}

/// `a + b` and `b + a` are the same value.
pub open spec fn addition_commutes<T: Add<Output = T>>(a: T, b: T) -> bool {
    a.add_spec(b) == b.add_spec(a)
}

/// `a - a` is `zero`.
pub open spec fn difference_with_itself_is<T: Sub<Output = T>>(a: T, zero: T) -> bool {
    a.sub_spec(a) == zero
}

/// Dividing `a * k` by `k` gives `a` back.
pub open spec fn division_undoes_multiplication<T: Mul<Output = T> + Div<Output = T>>(
    a: T,
    k: T,
) -> bool {
    a.mul_spec(k).div_spec(k) == a
}

/// `p - q` is the negation of `q - p`.
pub open spec fn difference_changes_sign<T: Sub<Output = T> + Neg<Output = T>>(p: T, q: T) -> bool {
    p.sub_spec(q) == q.sub_spec(p).neg_spec()
}

} // verus!
