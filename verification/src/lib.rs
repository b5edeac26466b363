//! A zero-cost wrapper that tags a value with a compile-time unit.
//!
//! `Typed<V, U>` carries a payload of type `V` together with a phantom unit
//! parameter `U` that has no runtime representation. Two `Typed` values can
//! only be compared or combined when their unit parameters are the same type,
//! so mixing values from different units or coordinate spaces is rejected at
//! compile time. All observable behaviour (equality, ordering, cloning,
//! arithmetic) is delegated to the payload unchanged.

use vstd::prelude::*;

use core::cmp::{Eq, Ordering, PartialEq, PartialOrd};
use core::marker::PhantomData;
use vstd::std_specs::cmp::{PartialEqSpec, PartialOrdSpec};

mod arith;
pub mod geom;
pub mod laws;

verus! {

/// A payload of type `V` tagged with the compile-time-only unit `U`.
///
/// The second field is a phantom marker: it stores nothing and is never read.
/// The wrapper owns its payload and adds no semantics of its own.
pub struct Typed<V, U>(pub V, pub PhantomData<U>);

impl<V, U> Typed<V, U> {
    /// Lifts a bare value into unit `U`.
    pub fn from_untyped(value: V) -> (r: Self)
        ensures
            r.0 == value,
    {
        Typed(value, PhantomData)
    }

    /// Unwraps, consuming the wrapper and yielding the payload.
    pub fn to_untyped(self) -> (r: V)
        ensures
            r == self.0,
    {
        self.0
    }
}

impl<V: core::fmt::Debug, U> Typed<V, U> {
    /// Renders the wrapper for debugging. The wrapper is invisible in the
    /// output: the string is exactly the payload's own debug rendering.
    ///
    /// Relies on std's `format!` with the `{:?}` specifier, applied to the
    /// payload field alone, so the output carries no decoration of the
    /// wrapper's own.
    #[verifier::external_body]
    pub fn debug_string(&self) -> String {
        format!("{:?}", self.0)
    }
}

impl<V: Clone, U> Clone for Typed<V, U> {
    /// The clone's payload is a clone of the original payload; nothing else is
    /// copied, so the two wrappers are independent values.
    fn clone(&self) -> (r: Self)
        ensures
            cloned::<V>(self.0, r.0),
    {
        Typed(self.0.clone(), PhantomData)
    }
}

impl<W, V: PartialEq<W>, U> PartialEq<Typed<W, U>> for Typed<V, U> {
    /// Two wrapped values of the same unit are equal exactly when their
    /// payloads are; values of different units cannot be compared at all.
    fn eq(&self, other: &Typed<W, U>) -> bool {
        self.0.eq(&other.0)
    }
}

impl<W, V: PartialEq<W>, U> vstd::std_specs::cmp::PartialEqSpecImpl<Typed<W, U>> for Typed<V, U> {
    open spec fn obeys_eq_spec() -> bool {
        V::obeys_eq_spec()
    }

    open spec fn eq_spec(&self, other: &Typed<W, U>) -> bool {
        self.0.eq_spec(&other.0)
    }
}

impl<V: Eq, U> Eq for Typed<V, U> {
}

impl<W, V: PartialOrd<W>, U> PartialOrd<Typed<W, U>> for Typed<V, U> {
    /// Two wrapped values of the same unit are ordered exactly as their
    /// payloads are.
    fn partial_cmp(&self, other: &Typed<W, U>) -> Option<Ordering> {
        self.0.partial_cmp(&other.0)
    }
}

impl<W, V: PartialOrd<W>, U> vstd::std_specs::cmp::PartialOrdSpecImpl<Typed<W, U>> for Typed<V, U> {
    open spec fn obeys_partial_cmp_spec() -> bool {
        V::obeys_partial_cmp_spec()
    }

    open spec fn partial_cmp_spec(&self, other: &Typed<W, U>) -> Option<Ordering> {
        self.0.partial_cmp_spec(&other.0)
    }
}

} // verus!
