//! Points of three-dimensional space.

use vstd::prelude::*;
use vstd::std_specs::ops::AddSpec;
use vstd::std_specs::ops::SubSpec;
use vstd::std_specs::ops::MulSpec;
use vstd::std_specs::ops::DivSpec;
use vstd::std_specs::cmp::PartialEqSpec;
use core::ops::Add;
use core::ops::Sub;
use core::ops::Mul;
use core::ops::Div;
use crate::scalar::is_equal;
use crate::scalar::is_sum;
use crate::scalar::is_difference;
use crate::scalar::is_product;
use crate::scalar::is_quotient;

verus! {

/// A place in space, with coordinates of any scalar type `T`.
///
/// A point has the arithmetic of its coordinates and can be compared, and
/// that is all: it is not indexed, and it has none of the operations that
/// only make sense of a displacement.
#[derive(Debug, Copy, Clone)]
pub struct Point3D<T> {
    /// `x` coordinate.
    pub x: T,
    /// `y` coordinate.
    pub y: T,
    /// `z` coordinate.
    pub z: T,
}

/// `==` in contracts: every coordinate equal to the same coordinate of the
/// other, as the scalar type specifies equality.
impl<T: PartialEq> vstd::std_specs::cmp::PartialEqSpecImpl for Point3D<T> {
    open spec fn obeys_eq_spec() -> bool {
        T::obeys_eq_spec()
    }

    open spec fn eq_spec(&self, other: &Point3D<T>) -> bool {
        self.x.eq_spec(&other.x) && self.y.eq_spec(&other.y) && self.z.eq_spec(&other.z)
    }
}

impl<T: PartialEq> PartialEq for Point3D<T> {
    /// `self == other`: whether every coordinate of `self` compares equal to
    /// the same coordinate of `other`.
    fn eq(&self, other: &Point3D<T>) -> (r: bool)
        ensures
            r ==> is_equal(self.x, other.x, true) && is_equal(self.y, other.y, true)
                && is_equal(self.z, other.z, true),
            !r ==> is_equal(self.x, other.x, false) || is_equal(self.y, other.y, false)
                || is_equal(self.z, other.z, false),
            T::obeys_eq_spec() ==> r == (self.x.eq_spec(&other.x) && self.y.eq_spec(&other.y)
                && self.z.eq_spec(&other.z)),
    {
        self.x == other.x && self.y == other.y && self.z == other.z
    }
}

/// `+` of two points, in contracts: allowed where it is allowed of every pair
/// of coordinates, and then the sum of every pair.
impl<T: Add<Output = T>> vstd::std_specs::ops::AddSpecImpl for Point3D<T> {
    open spec fn obeys_add_spec() -> bool {
        T::obeys_add_spec()
    }

    open spec fn add_req(self, rhs: Point3D<T>) -> bool {
        self.x.add_req(rhs.x) && self.y.add_req(rhs.y) && self.z.add_req(rhs.z)
    }

    open spec fn add_spec(self, rhs: Point3D<T>) -> Point3D<T> {
        Point3D { x: self.x.add_spec(rhs.x), y: self.y.add_spec(rhs.y), z: self.z.add_spec(rhs.z) }
    }
}

impl<T: Add<Output = T>> Add for Point3D<T> {
    type Output = Point3D<T>;

    /// `self + rhs`: the sum, coordinate by coordinate.
    ///
    /// Its precondition is that of every `+`: `self.add_req(rhs)`.
    fn add(self, rhs: Point3D<T>) -> (r: Point3D<T>)
        ensures
            is_sum(self.x, rhs.x, r.x),
            is_sum(self.y, rhs.y, r.y),
            is_sum(self.z, rhs.z, r.z),
            T::obeys_add_spec() ==> r.x == self.x.add_spec(rhs.x)
                && r.y == self.y.add_spec(rhs.y) && r.z == self.z.add_spec(rhs.z),
    {
        Point3D { x: self.x + rhs.x, y: self.y + rhs.y, z: self.z + rhs.z }
    }
}

/// `-` of two points, in contracts: allowed where it is allowed of every pair
/// of coordinates, and then the difference of every pair.
impl<T: Sub<Output = T>> vstd::std_specs::ops::SubSpecImpl for Point3D<T> {
    open spec fn obeys_sub_spec() -> bool {
        T::obeys_sub_spec()
    }

    open spec fn sub_req(self, rhs: Point3D<T>) -> bool {
        self.x.sub_req(rhs.x) && self.y.sub_req(rhs.y) && self.z.sub_req(rhs.z)
    }

    open spec fn sub_spec(self, rhs: Point3D<T>) -> Point3D<T> {
        Point3D { x: self.x.sub_spec(rhs.x), y: self.y.sub_spec(rhs.y), z: self.z.sub_spec(rhs.z) }
    }
}

impl<T: Sub<Output = T>> Sub for Point3D<T> {
    type Output = Point3D<T>;

    /// `self - rhs`: the difference, coordinate by coordinate.
    ///
    /// Its precondition is that of every `-`: `self.sub_req(rhs)`.
    fn sub(self, rhs: Point3D<T>) -> (r: Point3D<T>)
        ensures
            is_difference(self.x, rhs.x, r.x),
            is_difference(self.y, rhs.y, r.y),
            is_difference(self.z, rhs.z, r.z),
            T::obeys_sub_spec() ==> r.x == self.x.sub_spec(rhs.x)
                && r.y == self.y.sub_spec(rhs.y) && r.z == self.z.sub_spec(rhs.z),
    {
        Point3D { x: self.x - rhs.x, y: self.y - rhs.y, z: self.z - rhs.z }
    }
}

/// `*` of two points, in contracts: allowed where it is allowed of every pair
/// of coordinates, and then the product of every pair.
impl<T: Mul<Output = T>> vstd::std_specs::ops::MulSpecImpl for Point3D<T> {
    open spec fn obeys_mul_spec() -> bool {
        T::obeys_mul_spec()
    }

    open spec fn mul_req(self, rhs: Point3D<T>) -> bool {
        self.x.mul_req(rhs.x) && self.y.mul_req(rhs.y) && self.z.mul_req(rhs.z)
    }

    open spec fn mul_spec(self, rhs: Point3D<T>) -> Point3D<T> {
        Point3D { x: self.x.mul_spec(rhs.x), y: self.y.mul_spec(rhs.y), z: self.z.mul_spec(rhs.z) }
    }
}

impl<T: Mul<Output = T>> Mul for Point3D<T> {
    type Output = Point3D<T>;

    /// `self * rhs`: the product, coordinate by coordinate.
    ///
    /// Its precondition is that of every `*`: `self.mul_req(rhs)`.
    fn mul(self, rhs: Point3D<T>) -> (r: Point3D<T>)
        ensures
            is_product(self.x, rhs.x, r.x),
            is_product(self.y, rhs.y, r.y),
            is_product(self.z, rhs.z, r.z),
            T::obeys_mul_spec() ==> r.x == self.x.mul_spec(rhs.x)
                && r.y == self.y.mul_spec(rhs.y) && r.z == self.z.mul_spec(rhs.z),
    {
        Point3D { x: self.x * rhs.x, y: self.y * rhs.y, z: self.z * rhs.z }
    }
}

/// `*` by a scalar, in contracts: allowed where it is allowed of every
/// coordinate, and then every coordinate multiplied by the scalar.
impl<T: Mul<Output = T> + Copy> vstd::std_specs::ops::MulSpecImpl<T> for Point3D<T> {
    open spec fn obeys_mul_spec() -> bool {
        T::obeys_mul_spec()
    }

    open spec fn mul_req(self, rhs: T) -> bool {
        self.x.mul_req(rhs) && self.y.mul_req(rhs) && self.z.mul_req(rhs)
    }

    open spec fn mul_spec(self, rhs: T) -> Point3D<T> {
        Point3D { x: self.x.mul_spec(rhs), y: self.y.mul_spec(rhs), z: self.z.mul_spec(rhs) }
    }
}

impl<T: Mul<Output = T> + Copy> Mul<T> for Point3D<T> {
    type Output = Point3D<T>;

    /// `self * rhs` for a scalar `rhs`: each coordinate multiplied by it.
    ///
    /// Its precondition is that of every `*`: `self.mul_req(rhs)`.
    fn mul(self, rhs: T) -> (r: Point3D<T>)
        ensures
            is_product(self.x, rhs, r.x),
            is_product(self.y, rhs, r.y),
            is_product(self.z, rhs, r.z),
            T::obeys_mul_spec() ==> r.x == self.x.mul_spec(rhs) && r.y == self.y.mul_spec(rhs)
                && r.z == self.z.mul_spec(rhs),
    {
        Point3D { x: self.x * rhs, y: self.y * rhs, z: self.z * rhs }
    }
}

/// `/` of two points, in contracts: allowed where it is allowed of every pair
/// of coordinates, and then the quotient of every pair.
impl<T: Div<Output = T>> vstd::std_specs::ops::DivSpecImpl for Point3D<T> {
    open spec fn obeys_div_spec() -> bool {
        T::obeys_div_spec()
    }

    open spec fn div_req(self, rhs: Point3D<T>) -> bool {
        self.x.div_req(rhs.x) && self.y.div_req(rhs.y) && self.z.div_req(rhs.z)
    }

    open spec fn div_spec(self, rhs: Point3D<T>) -> Point3D<T> {
        Point3D { x: self.x.div_spec(rhs.x), y: self.y.div_spec(rhs.y), z: self.z.div_spec(rhs.z) }
    }
}

impl<T: Div<Output = T>> Div for Point3D<T> {
    type Output = Point3D<T>;

    /// `self / rhs`: the quotient, coordinate by coordinate.
    ///
    /// Its precondition is that of every `/`: `self.div_req(rhs)`.
    fn div(self, rhs: Point3D<T>) -> (r: Point3D<T>)
        ensures
            is_quotient(self.x, rhs.x, r.x),
            is_quotient(self.y, rhs.y, r.y),
            is_quotient(self.z, rhs.z, r.z),
            T::obeys_div_spec() ==> r.x == self.x.div_spec(rhs.x)
                && r.y == self.y.div_spec(rhs.y) && r.z == self.z.div_spec(rhs.z),
    {
        Point3D { x: self.x / rhs.x, y: self.y / rhs.y, z: self.z / rhs.z }
    }
}

/// `/` by a scalar, in contracts: allowed where it is allowed of every
/// coordinate, and then every coordinate divided by the scalar.
impl<T: Div<Output = T> + Copy> vstd::std_specs::ops::DivSpecImpl<T> for Point3D<T> {
    open spec fn obeys_div_spec() -> bool {
        T::obeys_div_spec()
    }

    open spec fn div_req(self, rhs: T) -> bool {
        self.x.div_req(rhs) && self.y.div_req(rhs) && self.z.div_req(rhs)
    }

    open spec fn div_spec(self, rhs: T) -> Point3D<T> {
        Point3D { x: self.x.div_spec(rhs), y: self.y.div_spec(rhs), z: self.z.div_spec(rhs) }
    }
}

impl<T: Div<Output = T> + Copy> Div<T> for Point3D<T> {
    type Output = Point3D<T>;

    /// `self / rhs` for a scalar `rhs`: each coordinate divided by it.
    ///
    /// Its precondition is that of every `/`: `self.div_req(rhs)`.
    fn div(self, rhs: T) -> (r: Point3D<T>)
        ensures
            is_quotient(self.x, rhs, r.x),
            is_quotient(self.y, rhs, r.y),
            is_quotient(self.z, rhs, r.z),
            T::obeys_div_spec() ==> r.x == self.x.div_spec(rhs) && r.y == self.y.div_spec(rhs)
                && r.z == self.z.div_spec(rhs),
    {
        Point3D { x: self.x / rhs, y: self.y / rhs, z: self.z / rhs }
    }
}

} // verus!
