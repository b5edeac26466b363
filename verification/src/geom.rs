//! Unit-tagged 2-D geometry: a scalar length, a point and a displacement
//! vector, all specialisations of [`Typed`] over the geometry primitives of
//! the `cgmath` crate.
//!
//! The point and vector payloads are plain pairs of coordinates; every
//! contract here speaks of those coordinates directly.

use vstd::prelude::*;

use core::marker::PhantomData;

use crate::Typed;

verus! {

#[verifier::external_type_specification]
#[verifier::reject_recursive_types(S)]
pub struct ExPoint2<S>(cgmath::Point2<S>);

#[verifier::external_type_specification]
#[verifier::reject_recursive_types(S)]
pub struct ExVector2<S>(cgmath::Vector2<S>);

/// Relies on `cgmath::Point2::new`: it stores the two coordinates as given.
pub assume_specification<S>[ cgmath::Point2::<S>::new ](x: S, y: S) -> (r: cgmath::Point2<S>)
    ensures
        r.x == x,
        r.y == y,
;

/// Relies on `cgmath::Vector2::new`: it stores the two components as given.
pub assume_specification<S>[ cgmath::Vector2::<S>::new ](x: S, y: S) -> (r: cgmath::Vector2<S>)
    ensures
        r.x == x,
        r.y == y,
;

/// The quotient of `a` by `b` rounded toward zero: exactly what `/` computes
/// on the payload scalars (`b` must not be zero).
pub open spec fn div_toward_zero(a: int, b: int) -> int {
    if a >= 0 {
        a / b
    } else {
        -((-a) / b)
    }
}

/// Relies on cgmath's `Add<Vector2<S>> for Point2<S>`: the sum is the point
/// moved componentwise by the vector.
#[verifier::external_body]
fn point_add_vector(p: cgmath::Point2<i32>, v: cgmath::Vector2<i32>) -> (r: cgmath::Point2<i32>)
    requires
        i32::MIN <= p.x + v.x <= i32::MAX,
        i32::MIN <= p.y + v.y <= i32::MAX,
    ensures
        r.x == p.x + v.x,
        r.y == p.y + v.y,
{
    p + v
}

/// Relies on cgmath's `Sub<Vector2<S>> for Point2<S>`: the difference is the
/// point moved componentwise against the vector.
#[verifier::external_body]
fn point_sub_vector(p: cgmath::Point2<i32>, v: cgmath::Vector2<i32>) -> (r: cgmath::Point2<i32>)
    requires
        i32::MIN <= p.x - v.x <= i32::MAX,
        i32::MIN <= p.y - v.y <= i32::MAX,
    ensures
        r.x == p.x - v.x,
        r.y == p.y - v.y,
{
    p - v
}

/// Relies on cgmath's `Add<Vector2<S>> for Vector2<S>`: componentwise sum.
#[verifier::external_body]
fn vector_add_vector(a: cgmath::Vector2<i32>, b: cgmath::Vector2<i32>) -> (r: cgmath::Vector2<
    i32,
>)
    requires
        i32::MIN <= a.x + b.x <= i32::MAX,
        i32::MIN <= a.y + b.y <= i32::MAX,
    ensures
        r.x == a.x + b.x,
        r.y == a.y + b.y,
{
    a + b
}

/// Relies on cgmath's `Sub<Vector2<S>> for Vector2<S>`: componentwise
/// difference.
#[verifier::external_body]
fn vector_sub_vector(a: cgmath::Vector2<i32>, b: cgmath::Vector2<i32>) -> (r: cgmath::Vector2<
    i32,
>)
    requires
        i32::MIN <= a.x - b.x <= i32::MAX,
        i32::MIN <= a.y - b.y <= i32::MAX,
    ensures
        r.x == a.x - b.x,
        r.y == a.y - b.y,
{
    a - b
}

/// Relies on cgmath's `Mul<S> for Vector2<S>`: each component is multiplied
/// by the scalar.
#[verifier::external_body]
fn vector_mul_scalar(v: cgmath::Vector2<i32>, s: i32) -> (r: cgmath::Vector2<i32>)
    requires
        i32::MIN <= v.x * s <= i32::MAX,
        i32::MIN <= v.y * s <= i32::MAX,
    ensures
        r.x == v.x * s,
        r.y == v.y * s,
{
    v * s
}

/// Relies on cgmath's `Div<S> for Vector2<S>`: each component is divided by
/// the scalar, rounding toward zero as `/` does on the scalar type.
#[verifier::external_body]
fn vector_div_scalar(v: cgmath::Vector2<i32>, s: i32) -> (r: cgmath::Vector2<i32>)
    requires
        s != 0,
        !(v.x == i32::MIN && s == -1),
        !(v.y == i32::MIN && s == -1),
    ensures
        r.x == div_toward_zero(v.x as int, s as int),
        r.y == div_toward_zero(v.y as int, s as int),
{
    v / s
}

/// A scalar measurement in unit `U`.
pub type Length<T, U> = Typed<T, U>;

/// A 2-D displacement in unit `U`.
pub type TypedVector2<T, U> = Typed<cgmath::Vector2<T>, U>;

/// A 2-D position in unit `U`.
pub type TypedPoint2<T, U> = Typed<cgmath::Point2<T>, U>;

impl<T, U> TypedVector2<T, U> {
    /// Builds the displacement with the given components, in unit `U`.
    pub fn new(x: T, y: T) -> (r: Self)
        ensures
            r.0.x == x,
            r.0.y == y,
    {
        Typed(cgmath::Vector2::new(x, y), PhantomData)
    }

    /// Builds the displacement from two already-tagged scalar components.
    /// Both components carry the same unit `U`, so the axes cannot disagree.
    pub fn from_lengths(x: Length<T, U>, y: Length<T, U>) -> (r: Self)
        ensures
            r.0.x == x.0,
            r.0.y == y.0,
    {
        Self::new(x.0, y.0)
    }
}

impl<T, U> TypedPoint2<T, U> {
    /// Builds the position with the given coordinates, in unit `U`.
    pub fn new(x: T, y: T) -> (r: Self)
        ensures
            r.0.x == x,
            r.0.y == y,
    {
        Typed(cgmath::Point2::new(x, y), PhantomData)
    }

    /// Builds the position from two already-tagged scalar coordinates.
    /// Both coordinates carry the same unit `U`, so the axes cannot disagree.
    pub fn from_lengths(x: Length<T, U>, y: Length<T, U>) -> (r: Self)
        ensures
            r.0.x == x.0,
            r.0.y == y.0,
    {
        Self::new(x.0, y.0)
    }
}

impl<U> TypedPoint2<i32, U> {
    /// Moves the position by a displacement measured in the same unit:
    /// coordinates are added componentwise, and the unit is kept.
    pub fn add_vector(self, v: TypedVector2<i32, U>) -> (r: Self)
        requires
            i32::MIN <= self.0.x + v.0.x <= i32::MAX,
            i32::MIN <= self.0.y + v.0.y <= i32::MAX,
        ensures
            r.0.x == self.0.x + v.0.x,
            r.0.y == self.0.y + v.0.y,
    {
        Typed(point_add_vector(self.0, v.0), PhantomData)
    }

    /// Moves the position against a displacement measured in the same unit:
    /// coordinates are subtracted componentwise, and the unit is kept.
    pub fn sub_vector(self, v: TypedVector2<i32, U>) -> (r: Self)
        requires
            i32::MIN <= self.0.x - v.0.x <= i32::MAX,
            i32::MIN <= self.0.y - v.0.y <= i32::MAX,
        ensures
            r.0.x == self.0.x - v.0.x,
            r.0.y == self.0.y - v.0.y,
    {
        Typed(point_sub_vector(self.0, v.0), PhantomData)
    }
}

impl<U> TypedVector2<i32, U> {
    /// Adds a displacement measured in the same unit, componentwise.
    pub fn add_vector(self, v: TypedVector2<i32, U>) -> (r: Self)
        requires
            i32::MIN <= self.0.x + v.0.x <= i32::MAX,
            i32::MIN <= self.0.y + v.0.y <= i32::MAX,
        ensures
            r.0.x == self.0.x + v.0.x,
            r.0.y == self.0.y + v.0.y,
    {
        Typed(vector_add_vector(self.0, v.0), PhantomData)
    }

    /// Subtracts a displacement measured in the same unit, componentwise.
    pub fn sub_vector(self, v: TypedVector2<i32, U>) -> (r: Self)
        requires
            i32::MIN <= self.0.x - v.0.x <= i32::MAX,
            i32::MIN <= self.0.y - v.0.y <= i32::MAX,
        ensures
            r.0.x == self.0.x - v.0.x,
            r.0.y == self.0.y - v.0.y,
    {
        Typed(vector_sub_vector(self.0, v.0), PhantomData)
    }

    /// Scales the displacement by a scalar measured in the same unit: each
    /// component is multiplied by the scalar's payload.
    pub fn mul_length(self, s: Length<i32, U>) -> (r: Self)
        requires
            i32::MIN <= self.0.x * s.0 <= i32::MAX,
            i32::MIN <= self.0.y * s.0 <= i32::MAX,
        ensures
            r.0.x == self.0.x * s.0,
            r.0.y == self.0.y * s.0,
    {
        Typed(vector_mul_scalar(self.0, s.0), PhantomData)
    }

    /// Divides the displacement by a scalar measured in the same unit: each
    /// component is divided by the scalar's payload, rounding toward zero as
    /// the payload's own division does.
    pub fn div_length(self, s: Length<i32, U>) -> (r: Self)
        requires
            s.0 != 0,
            !(self.0.x == i32::MIN && s.0 == -1),
            !(self.0.y == i32::MIN && s.0 == -1),
        ensures
            r.0.x == div_toward_zero(self.0.x as int, s.0 as int),
            r.0.y == div_toward_zero(self.0.y as int, s.0 as int),
    {
        Typed(vector_div_scalar(self.0, s.0), PhantomData)
    }
}

} // verus!
