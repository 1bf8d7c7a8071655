//! Vectors of the plane.

use vstd::prelude::*;
use vstd::std_specs::ops::AddSpec;
use vstd::std_specs::ops::SubSpec;
use vstd::std_specs::ops::MulSpec;
use vstd::std_specs::ops::DivSpec;
use vstd::std_specs::ops::NegSpec;
use vstd::std_specs::cmp::PartialEqSpec;
use core::ops::Add;
use core::ops::Sub;
use core::ops::Mul;
use core::ops::Div;
use core::ops::Neg;
use core::ops::Not;
use core::ops::Index;
use core::ops::IndexMut;
use crate::error::InvalidIndex;
use crate::scalar::is_equal;
use crate::scalar::is_negation;
use crate::scalar::is_sum;
use crate::scalar::is_difference;
use crate::scalar::is_product;
use crate::scalar::is_quotient;
use crate::scalar::sum_of_products;
use crate::scalar::sum_of_products_req;
use crate::scalar::is_sum_of_products;
use crate::scalar::eval_sum_of_products;

verus! {

/// A displacement in the plane, with coordinates of any scalar type `T`.
///
/// Indexing counts the coordinates from the last: `y` has index 0 and `x`
/// has index 1.
#[derive(Debug, Copy, Clone)]
pub struct Vector<T> {
    /// `x` coordinate.
    pub x: T,
    /// `y` coordinate.
    pub y: T,
}

impl<T> View for Vector<T> {
    type V = Seq<T>;

    /// The coordinates in the order of their indices: `[y, x]`.
    open spec fn view(&self) -> Seq<T> {
        seq![self.y, self.x]
    }
}

impl<T> Vector<T> {
    /// The coordinate at `index`, or the error for an index above 1.
    pub fn get(&self, index: u8) -> (r: Result<&T, InvalidIndex>)
        ensures
            index < 2 ==> r == Ok::<&T, InvalidIndex>(&self@[index as int]),
            index >= 2 ==> r == Err::<&T, InvalidIndex>(InvalidIndex { index }),
    {
        match index {
            0 => Ok(&self.y),
            1 => Ok(&self.x),
            _ => Err(InvalidIndex { index }),
        }
    }

    /// Replaces the coordinate at `index` by `value`. For an index above 1
    /// the vector stays as it is and the error is returned.
    pub fn set(&mut self, index: u8, value: T) -> (r: Result<(), InvalidIndex>)
        ensures
            index < 2 ==> r == Ok::<(), InvalidIndex>(()) && final(self)@ == old(self)@.update(
                index as int,
                value,
            ),
            index >= 2 ==> r == Err::<(), InvalidIndex>(InvalidIndex { index }) && *final(self)
                == *old(self),
    {
        match index {
            0 => {
                self.y = value;
            },
            1 => {
                self.x = value;
            },
            _ => {
                return Err(InvalidIndex { index });
            },
        }
        Ok(())
    }
}

/// The indices that `[]` takes.
impl<T> vstd::std_specs::core::IndexSpecImpl<u8> for Vector<T> {
    open spec fn index_req(&self, index: &u8) -> bool {
        *index < 2
    }
}

impl<T> Index<u8> for Vector<T> {
    type Output = T;

    /// `self[index]`: the coordinate at `index`.
    ///
    /// Its precondition is that of every `[]`: `self.index_req(&index)`, an
    /// index of 0 or 1.
    fn index(&self, index: u8) -> (r: &T)
        ensures
            *r == self@[index as int],
    {
        match index {
            0 => &self.y,
            1 => &self.x,
            _ => vstd::pervasive::unreached(),
        }
    }
}

impl<T> IndexMut<u8> for Vector<T> {
    /// `&mut self[index]`: the coordinate at `index`, to be read or replaced.
    /// The other coordinate stays.
    fn index_mut(&mut self, index: u8) -> (r: &mut T)
        requires
            index < 2,
        ensures
            *r == old(self)@[index as int],
            final(self)@ == old(self)@.update(index as int, *final(r)),
    {
        match index {
            0 => &mut self.y,
            1 => &mut self.x,
            _ => vstd::pervasive::unreached(),
        }
    }
}

/// `==` in contracts: every coordinate equal to the same coordinate of the
/// other, as the scalar type specifies equality.
impl<T: PartialEq> vstd::std_specs::cmp::PartialEqSpecImpl for Vector<T> {
    open spec fn obeys_eq_spec() -> bool {
        T::obeys_eq_spec()
    }

    open spec fn eq_spec(&self, other: &Vector<T>) -> bool {
        self.x.eq_spec(&other.x) && self.y.eq_spec(&other.y)
    }
}

impl<T: PartialEq> PartialEq for Vector<T> {
    /// `self == other`: whether every coordinate of `self` compares equal to
    /// the same coordinate of `other`.
    fn eq(&self, other: &Vector<T>) -> (r: bool)
        ensures
            r ==> is_equal(self.x, other.x, true) && is_equal(self.y, other.y, true),
            !r ==> is_equal(self.x, other.x, false) || is_equal(self.y, other.y, false),
            T::obeys_eq_spec() ==> r == (self.x.eq_spec(&other.x) && self.y.eq_spec(&other.y)),
    {
        self.x == other.x && self.y == other.y
    }
}

/// `!` in contracts: allowed where every coordinate may be negated, and then
/// the negation of every coordinate.
impl<T: Neg<Output = T>> vstd::std_specs::ops::NotSpecImpl for Vector<T> {
    open spec fn obeys_not_spec() -> bool {
        T::obeys_neg_spec()
    }

    open spec fn not_req(self) -> bool {
        self.x.neg_req() && self.y.neg_req()
    }

    open spec fn not_spec(self) -> Vector<T> {
        Vector { x: self.x.neg_spec(), y: self.y.neg_spec() }
    }
}

impl<T: Neg<Output = T>> Not for Vector<T> {
    type Output = Vector<T>;

    /// `!self`: the opposite vector, each coordinate negated.
    ///
    /// Its precondition is that of every `!`: `self.not_req()`.
    fn not(self) -> (r: Vector<T>)
        ensures
            is_negation(self.x, r.x),
            is_negation(self.y, r.y),
            T::obeys_neg_spec() ==> r.x == self.x.neg_spec() && r.y == self.y.neg_spec(),
    {
        Vector { x: self.x.neg(), y: self.y.neg() }
    }
}

/// `+` of two vectors, in contracts: allowed where it is allowed of every pair
/// of coordinates, and then the sum of every pair.
impl<T: Add<Output = T>> vstd::std_specs::ops::AddSpecImpl for Vector<T> {
    open spec fn obeys_add_spec() -> bool {
        T::obeys_add_spec()
    }

    open spec fn add_req(self, rhs: Vector<T>) -> bool {
        self.x.add_req(rhs.x) && self.y.add_req(rhs.y)
    }

    open spec fn add_spec(self, rhs: Vector<T>) -> Vector<T> {
        Vector { x: self.x.add_spec(rhs.x), y: self.y.add_spec(rhs.y) }
    }
}

impl<T: Add<Output = T>> Add for Vector<T> {
    type Output = Vector<T>;

    /// `self + rhs`: the sum, coordinate by coordinate.
    ///
    /// Its precondition is that of every `+`: `self.add_req(rhs)`.
    fn add(self, rhs: Vector<T>) -> (r: Vector<T>)
        ensures
            is_sum(self.x, rhs.x, r.x),
            is_sum(self.y, rhs.y, r.y),
            T::obeys_add_spec() ==> r.x == self.x.add_spec(rhs.x)
                && r.y == self.y.add_spec(rhs.y),
    {
        Vector { x: self.x + rhs.x, y: self.y + rhs.y }
    }
}

/// `-` of two vectors, in contracts: allowed where it is allowed of every pair
/// of coordinates, and then the difference of every pair.
impl<T: Sub<Output = T>> vstd::std_specs::ops::SubSpecImpl for Vector<T> {
    open spec fn obeys_sub_spec() -> bool {
        T::obeys_sub_spec()
    }

    open spec fn sub_req(self, rhs: Vector<T>) -> bool {
        self.x.sub_req(rhs.x) && self.y.sub_req(rhs.y)
    }

    open spec fn sub_spec(self, rhs: Vector<T>) -> Vector<T> {
        Vector { x: self.x.sub_spec(rhs.x), y: self.y.sub_spec(rhs.y) }
    }
}

impl<T: Sub<Output = T>> Sub for Vector<T> {
    type Output = Vector<T>;

    /// `self - rhs`: the difference, coordinate by coordinate.
    ///
    /// Its precondition is that of every `-`: `self.sub_req(rhs)`.
    fn sub(self, rhs: Vector<T>) -> (r: Vector<T>)
        ensures
            is_difference(self.x, rhs.x, r.x),
            is_difference(self.y, rhs.y, r.y),
            T::obeys_sub_spec() ==> r.x == self.x.sub_spec(rhs.x)
                && r.y == self.y.sub_spec(rhs.y),
    {
        Vector { x: self.x - rhs.x, y: self.y - rhs.y }
    }
}

/// `*` of two vectors, in contracts: allowed where it is allowed of every pair
/// of coordinates, and then the product of every pair.
impl<T: Mul<Output = T>> vstd::std_specs::ops::MulSpecImpl for Vector<T> {
    open spec fn obeys_mul_spec() -> bool {
        T::obeys_mul_spec()
    }

    open spec fn mul_req(self, rhs: Vector<T>) -> bool {
        self.x.mul_req(rhs.x) && self.y.mul_req(rhs.y)
    }

    open spec fn mul_spec(self, rhs: Vector<T>) -> Vector<T> {
        Vector { x: self.x.mul_spec(rhs.x), y: self.y.mul_spec(rhs.y) }
    }
}

impl<T: Mul<Output = T>> Mul for Vector<T> {
    type Output = Vector<T>;

    /// `self * rhs`: the product, coordinate by coordinate.
    ///
    /// Its precondition is that of every `*`: `self.mul_req(rhs)`.
    fn mul(self, rhs: Vector<T>) -> (r: Vector<T>)
        ensures
            is_product(self.x, rhs.x, r.x),
            is_product(self.y, rhs.y, r.y),
            T::obeys_mul_spec() ==> r.x == self.x.mul_spec(rhs.x)
                && r.y == self.y.mul_spec(rhs.y),
    {
        Vector { x: self.x * rhs.x, y: self.y * rhs.y }
    }
}

/// `*` by a scalar, in contracts: allowed where it is allowed of every
/// coordinate, and then every coordinate multiplied by the scalar.
impl<T: Mul<Output = T> + Copy> vstd::std_specs::ops::MulSpecImpl<T> for Vector<T> {
    open spec fn obeys_mul_spec() -> bool {
        T::obeys_mul_spec()
    }

    open spec fn mul_req(self, rhs: T) -> bool {
        self.x.mul_req(rhs) && self.y.mul_req(rhs)
    }

    open spec fn mul_spec(self, rhs: T) -> Vector<T> {
        Vector { x: self.x.mul_spec(rhs), y: self.y.mul_spec(rhs) }
    }
}

impl<T: Mul<Output = T> + Copy> Mul<T> for Vector<T> {
    type Output = Vector<T>;

    /// `self * rhs` for a scalar `rhs`: each coordinate multiplied by it.
    ///
    /// Its precondition is that of every `*`: `self.mul_req(rhs)`.
    fn mul(self, rhs: T) -> (r: Vector<T>)
        ensures
            is_product(self.x, rhs, r.x),
            is_product(self.y, rhs, r.y),
            T::obeys_mul_spec() ==> r.x == self.x.mul_spec(rhs) && r.y == self.y.mul_spec(rhs),
    {
        Vector { x: self.x * rhs, y: self.y * rhs }
    }
}

/// `/` of two vectors, in contracts: allowed where it is allowed of every pair
/// of coordinates, and then the quotient of every pair.
impl<T: Div<Output = T>> vstd::std_specs::ops::DivSpecImpl for Vector<T> {
    open spec fn obeys_div_spec() -> bool {
        T::obeys_div_spec()
    }

    open spec fn div_req(self, rhs: Vector<T>) -> bool {
        self.x.div_req(rhs.x) && self.y.div_req(rhs.y)
    }

    open spec fn div_spec(self, rhs: Vector<T>) -> Vector<T> {
        Vector { x: self.x.div_spec(rhs.x), y: self.y.div_spec(rhs.y) }
    }
}

impl<T: Div<Output = T>> Div for Vector<T> {
    type Output = Vector<T>;

    /// `self / rhs`: the quotient, coordinate by coordinate.
    ///
    /// Its precondition is that of every `/`: `self.div_req(rhs)`.
    fn div(self, rhs: Vector<T>) -> (r: Vector<T>)
        ensures
            is_quotient(self.x, rhs.x, r.x),
            is_quotient(self.y, rhs.y, r.y),
            T::obeys_div_spec() ==> r.x == self.x.div_spec(rhs.x)
                && r.y == self.y.div_spec(rhs.y),
    {
        Vector { x: self.x / rhs.x, y: self.y / rhs.y }
    }
}

/// `/` by a scalar, in contracts: allowed where it is allowed of every
/// coordinate, and then every coordinate divided by the scalar.
impl<T: Div<Output = T> + Copy> vstd::std_specs::ops::DivSpecImpl<T> for Vector<T> {
    open spec fn obeys_div_spec() -> bool {
        T::obeys_div_spec()
    }

    open spec fn div_req(self, rhs: T) -> bool {
        self.x.div_req(rhs) && self.y.div_req(rhs)
    }

    open spec fn div_spec(self, rhs: T) -> Vector<T> {
        Vector { x: self.x.div_spec(rhs), y: self.y.div_spec(rhs) }
    }
}

impl<T: Div<Output = T> + Copy> Div<T> for Vector<T> {
    type Output = Vector<T>;

    /// `self / rhs` for a scalar `rhs`: each coordinate divided by it.
    ///
    /// Its precondition is that of every `/`: `self.div_req(rhs)`.
    fn div(self, rhs: T) -> (r: Vector<T>)
        ensures
            is_quotient(self.x, rhs, r.x),
            is_quotient(self.y, rhs, r.y),
            T::obeys_div_spec() ==> r.x == self.x.div_spec(rhs) && r.y == self.y.div_spec(rhs),
    {
        Vector { x: self.x / rhs, y: self.y / rhs }
    }
}

impl<T: Mul<Output = T> + Add<Output = T>> Vector<T> {
    /// The inner product `self.x * other.x + self.y * other.y`.
    pub open spec fn dot_spec(self, other: Vector<T>) -> T {
        sum_of_products(self.x, other.x, self.y, other.y)
    }

    /// Every step of the inner product of `self` and `other` is allowed.
    pub open spec fn dot_req(self, other: Vector<T>) -> bool {
        sum_of_products_req(self.x, other.x, self.y, other.y)
    }

    /// The inner product of `self` and `other`.
    pub fn dot(self, other: Vector<T>) -> (r: T)
        requires
            self.dot_req(other),
        ensures
            is_sum_of_products(self.x, other.x, self.y, other.y, r),
            T::obeys_mul_spec() && T::obeys_add_spec() ==> r == self.dot_spec(other),
    {
        eval_sum_of_products(self.x, other.x, self.y, other.y)
    }
}

impl<T: Neg<Output = T>> Vector<T> {
    /// The vector turned by a quarter: `x = -self.y`, `y = self.x`.
    pub open spec fn cross_spec(self) -> Vector<T> {
        Vector { x: self.y.neg_spec(), y: self.x }
    }

    /// The vector perpendicular to `self` that a quarter turn gives. The
    /// plane has no cross product of two vectors; this stands in for it.
    pub fn cross(self) -> (r: Vector<T>)
        requires
            self.y.neg_req(),
        ensures
            is_negation(self.y, r.x),
            r.y == self.x,
            T::obeys_neg_spec() ==> r == self.cross_spec(),
    {
        Vector { x: self.y.neg(), y: self.x }
    }
}

} // verus!
