//! Laws of `Vector3D` and `Point3D`.

use vstd::prelude::*;
use vstd::std_specs::ops::AddSpec;
use vstd::std_specs::ops::SubSpec;
use vstd::std_specs::ops::MulSpec;
use vstd::std_specs::ops::DivSpec;
use vstd::std_specs::ops::NotSpec;
use core::ops::Add;
use core::ops::Sub;
use core::ops::Mul;
use core::ops::Div;
use core::ops::Neg;
use crate::point3d::Point3D;
use crate::vector3d::Vector3D;
use crate::scalar::negation_restores;
use crate::scalar::addition_commutes;
use crate::scalar::difference_with_itself_is;
use crate::scalar::difference_changes_sign;
use crate::scalar::division_undoes_multiplication;

verus! {

/// Index 0 is `z`, index 1 is `y` and index 2 is `x`; there is no other
/// index.
pub proof fn vector3d_index_order<T>(v: Vector3D<T>)
    ensures
        v@.len() == 3,
        v@[0] == v.z,
        v@[1] == v.y,
        v@[2] == v.x,
{
}

/// A vector whose coordinate at `index` was replaced by `value` has `value`
/// at that index, and at the other indices what it had before.
pub proof fn vector3d_set_then_get<T>(
    before: Vector3D<T>,
    after: Vector3D<T>,
    index: u8,
    value: T,
)
    requires
        index < 3,
        after@ == before@.update(index as int, value),
    ensures
        after@[index as int] == value,
        forall|other: int| 0 <= other < 3 && other != index ==> after@[other] == before@[other],
        index == 0 ==> after == (Vector3D { x: before.x, y: before.y, z: value }),
        index == 1 ==> after == (Vector3D { x: before.x, y: value, z: before.z }),
        index == 2 ==> after == (Vector3D { x: value, y: before.y, z: before.z }),
{
}

/// The opposite of the opposite of `v` is `v`, where negating twice
/// restores each coordinate.
pub proof fn vector3d_negated_twice<T: Neg<Output = T>>(v: Vector3D<T>)
    requires
        negation_restores(v.x),
        negation_restores(v.y),
        negation_restores(v.z),
    ensures
        v.not_spec().not_spec() == v,
{
}

/// `a + b` is `b + a`, where the coordinates commute.
pub proof fn vector3d_sum_commutes<T: Add<Output = T>>(a: Vector3D<T>, b: Vector3D<T>)
    requires
        addition_commutes(a.x, b.x),
        addition_commutes(a.y, b.y),
        addition_commutes(a.z, b.z),
    ensures
        a.add_spec(b) == b.add_spec(a),
{
}

/// `v - v` is the vector of zeros, where each coordinate minus itself is
/// `zero`.
pub proof fn vector3d_minus_itself<T: Sub<Output = T>>(v: Vector3D<T>, zero: T)
    requires
        difference_with_itself_is(v.x, zero),
        difference_with_itself_is(v.y, zero),
        difference_with_itself_is(v.z, zero),
    ensures
        v.sub_spec(v) == (Vector3D { x: zero, y: zero, z: zero }),
{
}

/// The cross product of `a` and `b` is the opposite of that of `b` and `a`,
/// where each of the three differences of products changes its sign when its
/// two products change places.
pub proof fn vector3d_cross_anticommutes<
    T: Mul<Output = T> + Sub<Output = T> + Neg<Output = T> + Copy,
>(a: Vector3D<T>, b: Vector3D<T>)
    requires
        difference_changes_sign(a.y.mul_spec(b.z), b.y.mul_spec(a.z)),
        difference_changes_sign(b.x.mul_spec(a.z), a.x.mul_spec(b.z)),
        difference_changes_sign(a.x.mul_spec(b.y), b.x.mul_spec(a.y)),
    ensures
        a.cross_spec(b) == b.cross_spec(a).not_spec(),
{
}

/// The cross product of `a` and itself is the vector of zeros, where each
/// product of two coordinates of `a` minus itself is `zero`.
pub proof fn vector3d_cross_with_itself<T: Mul<Output = T> + Sub<Output = T> + Copy>(
    a: Vector3D<T>,
    zero: T,
)
    requires
        difference_with_itself_is(a.y.mul_spec(a.z), zero),
        difference_with_itself_is(a.x.mul_spec(a.z), zero),
        difference_with_itself_is(a.x.mul_spec(a.y), zero),
    ensures
        a.cross_spec(a) == (Vector3D { x: zero, y: zero, z: zero }),
{
}

/// `a + b` is `b + a`, where the coordinates commute.
pub proof fn point3d_sum_commutes<T: Add<Output = T>>(a: Point3D<T>, b: Point3D<T>)
    requires
        addition_commutes(a.x, b.x),
        addition_commutes(a.y, b.y),
        addition_commutes(a.z, b.z),
    ensures
        a.add_spec(b) == b.add_spec(a),
{
}

/// `p - p` is the point of zeros, where each coordinate minus itself is
/// `zero`.
pub proof fn point3d_minus_itself<T: Sub<Output = T>>(p: Point3D<T>, zero: T)
    requires
        difference_with_itself_is(p.x, zero),
        difference_with_itself_is(p.y, zero),
        difference_with_itself_is(p.z, zero),
    ensures
        p.sub_spec(p) == (Point3D { x: zero, y: zero, z: zero }),
{
}

/// `(v * k) / k` is `v`, where dividing by `k` undoes multiplying each
/// coordinate by `k`.
pub proof fn vector3d_scaled_then_divided<T: Mul<Output = T> + Div<Output = T> + Copy>(
    v: Vector3D<T>,
    k: T,
)
    requires
        division_undoes_multiplication(v.x, k),
        division_undoes_multiplication(v.y, k),
        division_undoes_multiplication(v.z, k),
    ensures
        v.mul_spec(k).div_spec(k) == v,
{
}

/// `(p * k) / k` is `p`, where dividing by `k` undoes multiplying each
/// coordinate by `k`.
pub proof fn point3d_scaled_then_divided<T: Mul<Output = T> + Div<Output = T> + Copy>(
    p: Point3D<T>,
    k: T,
)
    requires
        division_undoes_multiplication(p.x, k),
        division_undoes_multiplication(p.y, k),
        division_undoes_multiplication(p.z, k),
    ensures
        p.mul_spec(k).div_spec(k) == p,
{
}

} // verus!
