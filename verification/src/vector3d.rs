//! Vectors of three-dimensional space.

use vstd::prelude::*;
use vstd::std_specs::ops::AddSpec;
use vstd::std_specs::ops::SubSpec;
use vstd::std_specs::ops::MulSpec;
use vstd::std_specs::ops::DivSpec;
use vstd::std_specs::ops::NegSpec;
use vstd::std_specs::cmp::PartialEqSpec;
use core::ops::Add;
use core::ops::Sub;
use core::ops::Mul;
use core::ops::Div;
use core::ops::Neg;
use core::ops::Not;
use core::ops::Index;
use core::ops::IndexMut;
use crate::error::InvalidIndex;
use crate::scalar::is_equal;
use crate::scalar::is_negation;
use crate::scalar::is_sum;
use crate::scalar::is_difference;
use crate::scalar::is_product;
use crate::scalar::is_quotient;
use crate::scalar::sum_of_three_products;
use crate::scalar::sum_of_three_products_req;
use crate::scalar::is_sum_of_products;
use crate::scalar::is_sum_of_three_products;
use crate::scalar::eval_sum_of_products;
use crate::scalar::difference_of_products;
use crate::scalar::difference_of_products_req;
use crate::scalar::is_difference_of_products;
use crate::scalar::eval_difference_of_products;

verus! {

/// A displacement in space, with coordinates of any scalar type `T`.
///
/// Indexing counts the coordinates from the last: `z` has index 0, `y` has
/// index 1 and `x` has index 2.
#[derive(Debug, Copy, Clone)]
pub struct Vector3D<T> {
    /// `x` coordinate.
    pub x: T,
    /// `y` coordinate.
    pub y: T,
    /// `z` coordinate.
    pub z: T,
}

impl<T> View for Vector3D<T> {
    type V = Seq<T>;

    /// The coordinates in the order of their indices: `[z, y, x]`.
    open spec fn view(&self) -> Seq<T> {
        seq![self.z, self.y, self.x]
    }
}

impl<T> Vector3D<T> {
    /// The coordinate at `index`, or the error for an index above 2.
    pub fn get(&self, index: u8) -> (r: Result<&T, InvalidIndex>)
        ensures
            index < 3 ==> r == Ok::<&T, InvalidIndex>(&self@[index as int]),
            index >= 3 ==> r == Err::<&T, InvalidIndex>(InvalidIndex { index }),
    {
        match index {
            0 => Ok(&self.z),
            1 => Ok(&self.y),
            2 => Ok(&self.x),
            _ => Err(InvalidIndex { index }),
        }
    }

    /// Replaces the coordinate at `index` by `value`. For an index above 2
    /// the vector stays as it is and the error is returned.
    pub fn set(&mut self, index: u8, value: T) -> (r: Result<(), InvalidIndex>)
        ensures
            index < 3 ==> r == Ok::<(), InvalidIndex>(()) && final(self)@ == old(self)@.update(
                index as int,
                value,
            ),
            index >= 3 ==> r == Err::<(), InvalidIndex>(InvalidIndex { index }) && *final(self)
                == *old(self),
    {
        match index {
            0 => {
                self.z = value;
            },
            1 => {
                self.y = value;
            },
            2 => {
                self.x = value;
            },
            _ => {
                return Err(InvalidIndex { index });
            },
        }
        Ok(())
    }
}

/// The indices that `[]` takes.
impl<T> vstd::std_specs::core::IndexSpecImpl<u8> for Vector3D<T> {
    open spec fn index_req(&self, index: &u8) -> bool {
        *index < 3
    }
}

impl<T> Index<u8> for Vector3D<T> {
    type Output = T;

    /// `self[index]`: the coordinate at `index`.
    ///
    /// Its precondition is that of every `[]`: `self.index_req(&index)`, an
    /// index of 0, 1 or 2.
    fn index(&self, index: u8) -> (r: &T)
        ensures
            *r == self@[index as int],
    {
        match index {
            0 => &self.z,
            1 => &self.y,
            2 => &self.x,
            _ => vstd::pervasive::unreached(),
        }
    }
}

impl<T> IndexMut<u8> for Vector3D<T> {
    /// `&mut self[index]`: the coordinate at `index`, to be read or replaced.
    /// The other coordinates stay.
    fn index_mut(&mut self, index: u8) -> (r: &mut T)
        requires
            index < 3,
        ensures
            *r == old(self)@[index as int],
            final(self)@ == old(self)@.update(index as int, *final(r)),
    {
        match index {
            0 => &mut self.z,
            1 => &mut self.y,
            2 => &mut self.x,
            _ => vstd::pervasive::unreached(),
        }
    }
}

/// `==` in contracts: every coordinate equal to the same coordinate of the
/// other, as the scalar type specifies equality.
impl<T: PartialEq> vstd::std_specs::cmp::PartialEqSpecImpl for Vector3D<T> {
    open spec fn obeys_eq_spec() -> bool {
        T::obeys_eq_spec()
    }

    open spec fn eq_spec(&self, other: &Vector3D<T>) -> bool {
        self.x.eq_spec(&other.x) && self.y.eq_spec(&other.y) && self.z.eq_spec(&other.z)
    }
}

impl<T: PartialEq> PartialEq for Vector3D<T> {
    /// `self == other`: whether every coordinate of `self` compares equal to
    /// the same coordinate of `other`.
    fn eq(&self, other: &Vector3D<T>) -> (r: bool)
        ensures
            r ==> is_equal(self.x, other.x, true) && is_equal(self.y, other.y, true)
                && is_equal(self.z, other.z, true),
            !r ==> is_equal(self.x, other.x, false) || is_equal(self.y, other.y, false)
                || is_equal(self.z, other.z, false),
            T::obeys_eq_spec() ==> r == (self.x.eq_spec(&other.x) && self.y.eq_spec(&other.y)
                && self.z.eq_spec(&other.z)),
    {
        self.x == other.x && self.y == other.y && self.z == other.z
    }
}

/// `!` in contracts: allowed where every coordinate may be negated, and then
/// the negation of every coordinate.
impl<T: Neg<Output = T>> vstd::std_specs::ops::NotSpecImpl for Vector3D<T> {
    open spec fn obeys_not_spec() -> bool {
        T::obeys_neg_spec()
    }

    open spec fn not_req(self) -> bool {
        self.x.neg_req() && self.y.neg_req() && self.z.neg_req()
    }

    open spec fn not_spec(self) -> Vector3D<T> {
        Vector3D { x: self.x.neg_spec(), y: self.y.neg_spec(), z: self.z.neg_spec() }
    }
}

impl<T: Neg<Output = T>> Not for Vector3D<T> {
    type Output = Vector3D<T>;

    /// `!self`: the opposite vector, each coordinate negated.
    ///
    /// Its precondition is that of every `!`: `self.not_req()`.
    fn not(self) -> (r: Vector3D<T>)
        ensures
            is_negation(self.x, r.x),
            is_negation(self.y, r.y),
            is_negation(self.z, r.z),
            T::obeys_neg_spec() ==> r.x == self.x.neg_spec() && r.y == self.y.neg_spec()
                && r.z == self.z.neg_spec(),
    {
        Vector3D { x: self.x.neg(), y: self.y.neg(), z: self.z.neg() }
    }
}

/// `+` of two vectors, in contracts: allowed where it is allowed of every pair
/// of coordinates, and then the sum of every pair.
impl<T: Add<Output = T>> vstd::std_specs::ops::AddSpecImpl for Vector3D<T> {
    open spec fn obeys_add_spec() -> bool {
        T::obeys_add_spec()
    }

    open spec fn add_req(self, rhs: Vector3D<T>) -> bool {
        self.x.add_req(rhs.x) && self.y.add_req(rhs.y) && self.z.add_req(rhs.z)
    }

    open spec fn add_spec(self, rhs: Vector3D<T>) -> Vector3D<T> {
        Vector3D { x: self.x.add_spec(rhs.x), y: self.y.add_spec(rhs.y), z: self.z.add_spec(rhs.z) }
    }
}

impl<T: Add<Output = T>> Add for Vector3D<T> {
    type Output = Vector3D<T>;

    /// `self + rhs`: the sum, coordinate by coordinate.
    ///
    /// Its precondition is that of every `+`: `self.add_req(rhs)`.
    fn add(self, rhs: Vector3D<T>) -> (r: Vector3D<T>)
        ensures
            is_sum(self.x, rhs.x, r.x),
            is_sum(self.y, rhs.y, r.y),
            is_sum(self.z, rhs.z, r.z),
            T::obeys_add_spec() ==> r.x == self.x.add_spec(rhs.x)
                && r.y == self.y.add_spec(rhs.y) && r.z == self.z.add_spec(rhs.z),
    {
        Vector3D { x: self.x + rhs.x, y: self.y + rhs.y, z: self.z + rhs.z }
    }
}

/// `-` of two vectors, in contracts: allowed where it is allowed of every pair
/// of coordinates, and then the difference of every pair.
impl<T: Sub<Output = T>> vstd::std_specs::ops::SubSpecImpl for Vector3D<T> {
    open spec fn obeys_sub_spec() -> bool {
        T::obeys_sub_spec()
    }

    open spec fn sub_req(self, rhs: Vector3D<T>) -> bool {
        self.x.sub_req(rhs.x) && self.y.sub_req(rhs.y) && self.z.sub_req(rhs.z)
    }

    open spec fn sub_spec(self, rhs: Vector3D<T>) -> Vector3D<T> {
        Vector3D { x: self.x.sub_spec(rhs.x), y: self.y.sub_spec(rhs.y), z: self.z.sub_spec(rhs.z) }
    }
}

impl<T: Sub<Output = T>> Sub for Vector3D<T> {
    type Output = Vector3D<T>;

    /// `self - rhs`: the difference, coordinate by coordinate.
    ///
    /// Its precondition is that of every `-`: `self.sub_req(rhs)`.
    fn sub(self, rhs: Vector3D<T>) -> (r: Vector3D<T>)
        ensures
            is_difference(self.x, rhs.x, r.x),
            is_difference(self.y, rhs.y, r.y),
            is_difference(self.z, rhs.z, r.z),
            T::obeys_sub_spec() ==> r.x == self.x.sub_spec(rhs.x)
                && r.y == self.y.sub_spec(rhs.y) && r.z == self.z.sub_spec(rhs.z),
    {
        Vector3D { x: self.x - rhs.x, y: self.y - rhs.y, z: self.z - rhs.z }
    }
}

/// `*` of two vectors, in contracts: allowed where it is allowed of every pair
/// of coordinates, and then the product of every pair.
impl<T: Mul<Output = T>> vstd::std_specs::ops::MulSpecImpl for Vector3D<T> {
    open spec fn obeys_mul_spec() -> bool {
        T::obeys_mul_spec()
    }

    open spec fn mul_req(self, rhs: Vector3D<T>) -> bool {
        self.x.mul_req(rhs.x) && self.y.mul_req(rhs.y) && self.z.mul_req(rhs.z)
    }

    open spec fn mul_spec(self, rhs: Vector3D<T>) -> Vector3D<T> {
        Vector3D { x: self.x.mul_spec(rhs.x), y: self.y.mul_spec(rhs.y), z: self.z.mul_spec(rhs.z) }
    }
}

impl<T: Mul<Output = T>> Mul for Vector3D<T> {
    type Output = Vector3D<T>;

    /// `self * rhs`: the product, coordinate by coordinate.
    ///
    /// Its precondition is that of every `*`: `self.mul_req(rhs)`.
    fn mul(self, rhs: Vector3D<T>) -> (r: Vector3D<T>)
        ensures
            is_product(self.x, rhs.x, r.x),
            is_product(self.y, rhs.y, r.y),
            is_product(self.z, rhs.z, r.z),
            T::obeys_mul_spec() ==> r.x == self.x.mul_spec(rhs.x)
                && r.y == self.y.mul_spec(rhs.y) && r.z == self.z.mul_spec(rhs.z),
    {
        Vector3D { x: self.x * rhs.x, y: self.y * rhs.y, z: self.z * rhs.z }
    }
}

/// `*` by a scalar, in contracts: allowed where it is allowed of every
/// coordinate, and then every coordinate multiplied by the scalar.
impl<T: Mul<Output = T> + Copy> vstd::std_specs::ops::MulSpecImpl<T> for Vector3D<T> {
    open spec fn obeys_mul_spec() -> bool {
        T::obeys_mul_spec()
    }

    open spec fn mul_req(self, rhs: T) -> bool {
        self.x.mul_req(rhs) && self.y.mul_req(rhs) && self.z.mul_req(rhs)
    }

    open spec fn mul_spec(self, rhs: T) -> Vector3D<T> {
        Vector3D { x: self.x.mul_spec(rhs), y: self.y.mul_spec(rhs), z: self.z.mul_spec(rhs) }
    }
}

impl<T: Mul<Output = T> + Copy> Mul<T> for Vector3D<T> {
    type Output = Vector3D<T>;

    /// `self * rhs` for a scalar `rhs`: each coordinate multiplied by it.
    ///
    /// Its precondition is that of every `*`: `self.mul_req(rhs)`.
    fn mul(self, rhs: T) -> (r: Vector3D<T>)
        ensures
            is_product(self.x, rhs, r.x),
            is_product(self.y, rhs, r.y),
            is_product(self.z, rhs, r.z),
            T::obeys_mul_spec() ==> r.x == self.x.mul_spec(rhs) && r.y == self.y.mul_spec(rhs)
                && r.z == self.z.mul_spec(rhs),
    {
        Vector3D { x: self.x * rhs, y: self.y * rhs, z: self.z * rhs }
    }
}

/// `/` of two vectors, in contracts: allowed where it is allowed of every pair
/// of coordinates, and then the quotient of every pair.
impl<T: Div<Output = T>> vstd::std_specs::ops::DivSpecImpl for Vector3D<T> {
    open spec fn obeys_div_spec() -> bool {
        T::obeys_div_spec()
    }

    open spec fn div_req(self, rhs: Vector3D<T>) -> bool {
        self.x.div_req(rhs.x) && self.y.div_req(rhs.y) && self.z.div_req(rhs.z)
    }

    open spec fn div_spec(self, rhs: Vector3D<T>) -> Vector3D<T> {
        Vector3D { x: self.x.div_spec(rhs.x), y: self.y.div_spec(rhs.y), z: self.z.div_spec(rhs.z) }
    }
}

impl<T: Div<Output = T>> Div for Vector3D<T> {
    type Output = Vector3D<T>;

    /// `self / rhs`: the quotient, coordinate by coordinate.
    ///
    /// Its precondition is that of every `/`: `self.div_req(rhs)`.
    fn div(self, rhs: Vector3D<T>) -> (r: Vector3D<T>)
        ensures
            is_quotient(self.x, rhs.x, r.x),
            is_quotient(self.y, rhs.y, r.y),
            is_quotient(self.z, rhs.z, r.z),
            T::obeys_div_spec() ==> r.x == self.x.div_spec(rhs.x)
                && r.y == self.y.div_spec(rhs.y) && r.z == self.z.div_spec(rhs.z),
    {
        Vector3D { x: self.x / rhs.x, y: self.y / rhs.y, z: self.z / rhs.z }
    }
}

/// `/` by a scalar, in contracts: allowed where it is allowed of every
/// coordinate, and then every coordinate divided by the scalar.
impl<T: Div<Output = T> + Copy> vstd::std_specs::ops::DivSpecImpl<T> for Vector3D<T> {
    open spec fn obeys_div_spec() -> bool {
        T::obeys_div_spec()
    }

    open spec fn div_req(self, rhs: T) -> bool {
        self.x.div_req(rhs) && self.y.div_req(rhs) && self.z.div_req(rhs)
    }

    open spec fn div_spec(self, rhs: T) -> Vector3D<T> {
        Vector3D { x: self.x.div_spec(rhs), y: self.y.div_spec(rhs), z: self.z.div_spec(rhs) }
    }
}

impl<T: Div<Output = T> + Copy> Div<T> for Vector3D<T> {
    type Output = Vector3D<T>;

    /// `self / rhs` for a scalar `rhs`: each coordinate divided by it.
    ///
    /// Its precondition is that of every `/`: `self.div_req(rhs)`.
    fn div(self, rhs: T) -> (r: Vector3D<T>)
        ensures
            is_quotient(self.x, rhs, r.x),
            is_quotient(self.y, rhs, r.y),
            is_quotient(self.z, rhs, r.z),
            T::obeys_div_spec() ==> r.x == self.x.div_spec(rhs) && r.y == self.y.div_spec(rhs)
                && r.z == self.z.div_spec(rhs),
    {
        Vector3D { x: self.x / rhs, y: self.y / rhs, z: self.z / rhs }
    }
}

impl<T: Mul<Output = T> + Add<Output = T>> Vector3D<T> {
    /// The inner product `self.x * other.x + self.y * other.y + self.z * other.z`.
    pub open spec fn dot_spec(self, other: Vector3D<T>) -> T {
        sum_of_three_products(self.x, other.x, self.y, other.y, self.z, other.z)
    }

    /// Every step of the inner product of `self` and `other` is allowed.
    pub open spec fn dot_req(self, other: Vector3D<T>) -> bool {
        sum_of_three_products_req(self.x, other.x, self.y, other.y, self.z, other.z)
    }

    /// The inner product of `self` and `other`.
    pub fn dot(self, other: Vector3D<T>) -> (r: T)
        requires
            self.dot_req(other),
        ensures
            is_sum_of_three_products(self.x, other.x, self.y, other.y, self.z, other.z, r),
            T::obeys_mul_spec() && T::obeys_add_spec() ==> r == self.dot_spec(other),
    {
        let s = eval_sum_of_products(self.x, other.x, self.y, other.y);
        let t = self.z * other.z;
        let r = s + t;
        assert(is_sum(s, t, r));
        r
    }
}

impl<T: Mul<Output = T> + Sub<Output = T> + Copy> Vector3D<T> {
    /// The cross product of `self` and `other`:
    /// `x = self.y * other.z - other.y * self.z`,
    /// `y = other.x * self.z - self.x * other.z`,
    /// `z = self.x * other.y - other.x * self.y`.
    pub open spec fn cross_spec(self, other: Vector3D<T>) -> Vector3D<T> {
        Vector3D {
            x: difference_of_products(self.y, other.z, other.y, self.z),
            y: difference_of_products(other.x, self.z, self.x, other.z),
            z: difference_of_products(self.x, other.y, other.x, self.y),
        }
    }

    /// Every step of the cross product of `self` and `other` is allowed.
    pub open spec fn cross_req(self, other: Vector3D<T>) -> bool {
        &&& difference_of_products_req(self.y, other.z, other.y, self.z)
        &&& difference_of_products_req(other.x, self.z, self.x, other.z)
        &&& difference_of_products_req(self.x, other.y, other.x, self.y)
    }

    /// The cross product of `self` and `other`.
    pub fn cross(self, other: Vector3D<T>) -> (r: Vector3D<T>)
        requires
            self.cross_req(other),
        ensures
            is_difference_of_products(self.y, other.z, other.y, self.z, r.x),
            is_difference_of_products(other.x, self.z, self.x, other.z, r.y),
            is_difference_of_products(self.x, other.y, other.x, self.y, r.z),
            T::obeys_mul_spec() && T::obeys_sub_spec() ==> r == self.cross_spec(other),
    {
        Vector3D {
            x: eval_difference_of_products(self.y, other.z, other.y, self.z),
            y: eval_difference_of_products(other.x, self.z, self.x, other.z),
            z: eval_difference_of_products(self.x, other.y, other.x, self.y),
        }
    }
}

} // verus!
