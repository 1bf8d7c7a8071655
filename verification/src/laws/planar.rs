//! Laws of `Vector` and `Point`.

use vstd::prelude::*;
use vstd::std_specs::ops::AddSpec;
use vstd::std_specs::ops::SubSpec;
use vstd::std_specs::ops::DivSpec;
use vstd::std_specs::ops::MulSpec;
use vstd::std_specs::ops::NotSpec;
use core::ops::Add;
use core::ops::Sub;
use core::ops::Mul;
use core::ops::Div;
use core::ops::Neg;
use crate::point::Point;
use crate::vector::Vector;
use crate::scalar::negation_restores;
use crate::scalar::addition_commutes;
use crate::scalar::difference_with_itself_is;
use crate::scalar::division_undoes_multiplication;

verus! {

/// Index 0 is `y` and index 1 is `x`; there is no other index.
pub proof fn vector_index_order<T>(v: Vector<T>)
    ensures
        v@.len() == 2,
        v@[0] == v.y,
        v@[1] == v.x,
{
}

/// A vector whose coordinate at `index` was replaced by `value` has `value`
/// at that index, and at the other index what it had before.
pub proof fn vector_set_then_get<T>(before: Vector<T>, after: Vector<T>, index: u8, value: T)
    requires
        index < 2,
        after@ == before@.update(index as int, value),
    ensures
        after@[index as int] == value,
        forall|other: int| 0 <= other < 2 && other != index ==> after@[other] == before@[other],
        index == 0 ==> after == (Vector { x: before.x, y: value }),
        index == 1 ==> after == (Vector { x: value, y: before.y }),
{
}

/// The opposite of the opposite of `v` is `v`, where negating twice
/// restores each coordinate.
pub proof fn vector_negated_twice<T: Neg<Output = T>>(v: Vector<T>)
    requires
        negation_restores(v.x),
        negation_restores(v.y),
    ensures
        v.not_spec().not_spec() == v,
{
}

/// `a + b` is `b + a`, where the coordinates commute.
pub proof fn vector_sum_commutes<T: Add<Output = T>>(a: Vector<T>, b: Vector<T>)
    requires
        addition_commutes(a.x, b.x),
        addition_commutes(a.y, b.y),
    ensures
        a.add_spec(b) == b.add_spec(a),
{
}

/// `v - v` is the vector of zeros, where each coordinate minus itself is
/// `zero`.
pub proof fn vector_minus_itself<T: Sub<Output = T>>(v: Vector<T>, zero: T)
    requires
        difference_with_itself_is(v.x, zero),
        difference_with_itself_is(v.y, zero),
    ensures
        v.sub_spec(v) == (Vector { x: zero, y: zero }),
{
}

/// Two quarter turns give the opposite vector.
pub proof fn vector_cross_twice<T: Neg<Output = T>>(v: Vector<T>)
    ensures
        v.cross_spec().cross_spec() == v.not_spec(),
{
}

/// Four quarter turns give `v` back, where negating twice restores each
/// coordinate.
pub proof fn vector_cross_four_times<T: Neg<Output = T>>(v: Vector<T>)
    requires
        negation_restores(v.x),
        negation_restores(v.y),
    ensures
        v.cross_spec().cross_spec().cross_spec().cross_spec() == v,
{
}

/// Index 0 is `y` and index 1 is `x`; there is no other index.
pub proof fn point_index_order<T>(p: Point<T>)
    ensures
        p@.len() == 2,
        p@[0] == p.y,
        p@[1] == p.x,
{
}

/// A point whose coordinate at `index` was replaced by `value` has `value`
/// at that index, and at the other index what it had before.
pub proof fn point_set_then_get<T>(before: Point<T>, after: Point<T>, index: u8, value: T)
    requires
        index < 2,
        after@ == before@.update(index as int, value),
    ensures
        after@[index as int] == value,
        forall|other: int| 0 <= other < 2 && other != index ==> after@[other] == before@[other],
        index == 0 ==> after == (Point { x: before.x, y: value }),
        index == 1 ==> after == (Point { x: value, y: before.y }),
{
}

/// `a + b` is `b + a`, where the coordinates commute.
pub proof fn point_sum_commutes<T: Add<Output = T>>(a: Point<T>, b: Point<T>)
    requires
        addition_commutes(a.x, b.x),
        addition_commutes(a.y, b.y),
    ensures
        a.add_spec(b) == b.add_spec(a),
{
}

/// `p - p` is the point of zeros, where each coordinate minus itself is
/// `zero`.
pub proof fn point_minus_itself<T: Sub<Output = T>>(p: Point<T>, zero: T)
    requires
        difference_with_itself_is(p.x, zero),
        difference_with_itself_is(p.y, zero),
    ensures
        p.sub_spec(p) == (Point { x: zero, y: zero }),
{
}

/// `(v * k) / k` is `v`, where dividing by `k` undoes multiplying each
/// coordinate by `k`.
pub proof fn vector_scaled_then_divided<T: Mul<Output = T> + Div<Output = T> + Copy>(
    v: Vector<T>,
    k: T,
)
    requires
        division_undoes_multiplication(v.x, k),
        division_undoes_multiplication(v.y, k),
    ensures
        v.mul_spec(k).div_spec(k) == v,
{
}

/// `(p * k) / k` is `p`, where dividing by `k` undoes multiplying each
/// coordinate by `k`.
pub proof fn point_scaled_then_divided<T: Mul<Output = T> + Div<Output = T> + Copy>(
    p: Point<T>,
    k: T,
)
    requires
        division_undoes_multiplication(p.x, k),
        division_undoes_multiplication(p.y, k),
    ensures
        p.mul_spec(k).div_spec(k) == p,
{
}

} // verus!
