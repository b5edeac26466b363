//! Tag-preserving arithmetic: `+`, `-`, `*` and `/` on `Typed` values.
//!
//! Both operands must carry the same unit parameter `U`; the computation is
//! delegated to the payloads' own operator, and the result keeps the unit.

use vstd::prelude::*;

use core::marker::PhantomData;
use core::ops::{Add, Div, Mul, Sub};
use vstd::std_specs::ops::{AddSpec, AddSpecImpl};
use vstd::std_specs::ops::{DivSpec, DivSpecImpl};
use vstd::std_specs::ops::{MulSpec, MulSpecImpl};
use vstd::std_specs::ops::{SubSpec, SubSpecImpl};

use crate::Typed;

verus! {

impl<W, V: Add<W>, U> AddSpecImpl<Typed<W, U>> for Typed<V, U> {
    open spec fn obeys_add_spec() -> bool {
        V::obeys_add_spec()
    }

    open spec fn add_req(self, rhs: Typed<W, U>) -> bool {
        self.0.add_req(rhs.0)
    }

    open spec fn add_spec(self, rhs: Typed<W, U>) -> Self::Output {
        Typed(self.0.add_spec(rhs.0), PhantomData)
    }
}

impl<W, V: Add<W>, U> Add<Typed<W, U>> for Typed<V, U> {
    type Output = Typed<<V as Add<W>>::Output, U>;

    /// The payload of the sum is the payloads' sum; the unit is unchanged.
    fn add(self, other: Typed<W, U>) -> (r: Self::Output) {
        Typed(self.0 + other.0, PhantomData)
    }
}

impl<W, V: Sub<W>, U> SubSpecImpl<Typed<W, U>> for Typed<V, U> {
    open spec fn obeys_sub_spec() -> bool {
        V::obeys_sub_spec()
    }

    open spec fn sub_req(self, rhs: Typed<W, U>) -> bool {
        self.0.sub_req(rhs.0)
    }

    open spec fn sub_spec(self, rhs: Typed<W, U>) -> Self::Output {
        Typed(self.0.sub_spec(rhs.0), PhantomData)
    }
}

impl<W, V: Sub<W>, U> Sub<Typed<W, U>> for Typed<V, U> {
    type Output = Typed<<V as Sub<W>>::Output, U>;

    /// The payload of the difference is the payloads' difference; the unit is unchanged.
    fn sub(self, other: Typed<W, U>) -> (r: Self::Output) {
        Typed(self.0 - other.0, PhantomData)
    }
}

impl<W, V: Mul<W>, U> MulSpecImpl<Typed<W, U>> for Typed<V, U> {
    open spec fn obeys_mul_spec() -> bool {
        V::obeys_mul_spec()
    }

    open spec fn mul_req(self, rhs: Typed<W, U>) -> bool {
        self.0.mul_req(rhs.0)
    }

    open spec fn mul_spec(self, rhs: Typed<W, U>) -> Self::Output {
        Typed(self.0.mul_spec(rhs.0), PhantomData)
    }
}

impl<W, V: Mul<W>, U> Mul<Typed<W, U>> for Typed<V, U> {
    type Output = Typed<<V as Mul<W>>::Output, U>;

    /// The payload of the product is the payloads' product; the unit is unchanged.
    fn mul(self, other: Typed<W, U>) -> (r: Self::Output) {
        Typed(self.0 * other.0, PhantomData)
    }
}

impl<W, V: Div<W>, U> DivSpecImpl<Typed<W, U>> for Typed<V, U> {
    open spec fn obeys_div_spec() -> bool {
        V::obeys_div_spec()
    }

    open spec fn div_req(self, rhs: Typed<W, U>) -> bool {
        self.0.div_req(rhs.0)
    }

    open spec fn div_spec(self, rhs: Typed<W, U>) -> Self::Output {
        Typed(self.0.div_spec(rhs.0), PhantomData)
    }
}

impl<W, V: Div<W>, U> Div<Typed<W, U>> for Typed<V, U> {
    type Output = Typed<<V as Div<W>>::Output, U>;

    /// The payload of the quotient is the payloads' quotient; the unit is unchanged.
    fn div(self, other: Typed<W, U>) -> (r: Self::Output) {
        Typed(self.0 / other.0, PhantomData)
    }
}

} // verus!
