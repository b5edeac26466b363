//! The laws the wrapper obeys, stated once for every payload and every unit.
//!
//! Each lemma is proved against the contracts and delegation specifications of
//! the items it speaks of; nothing here is assumed.

use vstd::prelude::*;

use core::cmp::{PartialEq, PartialOrd};
use core::ops::{Add, Div, Mul, Sub};
use vstd::std_specs::cmp::{PartialEqSpec, PartialOrdSpec};
use vstd::std_specs::ops::{AddSpec, DivSpec, MulSpec, SubSpec};

use crate::Typed;

verus! {

/// Round trip: lifting any value into any unit and then unwrapping yields a
/// value equal to the one lifted. `w` is any possible result of
/// `from_untyped(v)`, and `r` any possible result of unwrapping `w`.
pub proof fn lemma_round_trip<V, U>(v: V, w: Typed<V, U>, r: V)
    requires
        call_ensures(Typed::<V, U>::from_untyped, (v,), w),
        call_ensures(Typed::<V, U>::to_untyped, (w,), r),
    ensures
        r == v,
{
}

/// Cloning: any possible clone of a wrapper carries a payload that is a
/// possible clone of the original payload. Whenever the payload's own clone
/// is exact, the clone's payload equals the original's.
pub proof fn lemma_clone_payload<V: Clone, U>(a: &Typed<V, U>, b: Typed<V, U>)
    requires
        call_ensures(<Typed<V, U> as Clone>::clone, (a,), b),
    ensures
        cloned::<V>(a.0, b.0),
        (forall|x: &V, y: V| #[trigger] call_ensures(V::clone, (x,), y) ==> y == *x) ==> b.0
            == a.0,
{
}

/// Same-unit equality reduces exactly to payload equality: the wrapper's
/// equality relation holds of two wrappers just when the payloads' does of
/// their payloads.
pub proof fn lemma_eq_is_payload_eq<W, V: PartialEq<W>, U>(a: &Typed<V, U>, b: &Typed<W, U>)
    ensures
        a.eq_spec(b) == a.0.eq_spec(&b.0),
{
}

/// Equality on wrappers is reflexive, symmetric and transitive whenever the
/// payload's own equality is.
pub proof fn lemma_eq_equivalence<V: PartialEq, U>(
    a: &Typed<V, U>,
    b: &Typed<V, U>,
    c: &Typed<V, U>,
)
    requires
        forall|x: &V| #[trigger] x.eq_spec(x),
        forall|x: &V, y: &V| #[trigger] x.eq_spec(y) ==> y.eq_spec(x),
        forall|x: &V, y: &V, z: &V|
            #![trigger x.eq_spec(y), y.eq_spec(z)]
            x.eq_spec(y) && y.eq_spec(z) ==> x.eq_spec(z),
    ensures
        a.eq_spec(a),
        a.eq_spec(b) ==> b.eq_spec(a),
        a.eq_spec(b) && b.eq_spec(c) ==> a.eq_spec(c),
{
}

/// Same-unit ordering reduces exactly to payload ordering: the wrapper's
/// comparison of two wrappers is the payloads' comparison of their payloads.
pub proof fn lemma_ord_is_payload_ord<W, V: PartialOrd<W>, U>(a: &Typed<V, U>, b: &Typed<W, U>)
    ensures
        a.partial_cmp_spec(b) == a.0.partial_cmp_spec(&b.0),
{
}

/// Tag-preserving addition mirrors the payload's own addition: the payload of
/// the sum is the payloads' sum. The unit of the sum is the operands' unit,
/// which the result's type states by itself.
pub proof fn lemma_add_mirrors_payload<W, V: Add<W>, U>(a: Typed<V, U>, b: Typed<W, U>)
    ensures
        a.add_spec(b).0 == a.0.add_spec(b.0),
{
}

/// Tag-preserving subtraction mirrors the payload's own subtraction.
pub proof fn lemma_sub_mirrors_payload<W, V: Sub<W>, U>(a: Typed<V, U>, b: Typed<W, U>)
    ensures
        a.sub_spec(b).0 == a.0.sub_spec(b.0),
{
}

/// Tag-preserving multiplication mirrors the payload's own multiplication.
pub proof fn lemma_mul_mirrors_payload<W, V: Mul<W>, U>(a: Typed<V, U>, b: Typed<W, U>)
    ensures
        a.mul_spec(b).0 == a.0.mul_spec(b.0),
{
}

/// Tag-preserving division mirrors the payload's own division.
pub proof fn lemma_div_mirrors_payload<W, V: Div<W>, U>(a: Typed<V, U>, b: Typed<W, U>)
    ensures
        a.div_spec(b).0 == a.0.div_spec(b.0),
{
}

/// The rounding that vector division states, [`crate::geom::div_toward_zero`],
/// is exactly what `/` computes on the scalar payloads: dividing a tagged
/// vector by a tagged scalar rounds each component as dividing two tagged
/// scalars would.
pub proof fn lemma_div_toward_zero_is_scalar_division(a: i32, b: i32)
    requires
        b != 0,
        !(a == i32::MIN && b == -1),
    ensures
        a.div_spec(b) as int == crate::geom::div_toward_zero(a as int, b as int),
{
    let bi = b as int;
    if a >= 0 {
        lemma_euclid_div_bounds(a as int, bi);
    } else {
        let x = -(a as int);
        lemma_euclid_div_bounds(x, bi);
        let q = x / bi;
        if q == -x {
            let r = x % bi;
            vstd::arithmetic::div_mod::lemma_fundamental_div_mod(x, bi);
            assert(x == bi * q + r);
            assert(bi == -1) by (nonlinear_arith)
                requires
                    x == bi * (-x) + r,
                    x >= 1,
                    0 <= r,
                    r < if bi > 0 {
                        bi
                    } else {
                        -bi
                    },
                    bi != 0,
            ;
        }
    }
}

/// The quotient of a nonnegative `x` by any nonzero `d` has magnitude at most
/// `x`.
proof fn lemma_euclid_div_bounds(x: int, d: int)
    requires
        0 <= x,
        d != 0,
    ensures
        -x <= x / d <= x,
{
    let q = x / d;
    let r = x % d;
    vstd::arithmetic::div_mod::lemma_fundamental_div_mod(x, d);
    assert(x == d * q + r);
    if d > 0 {
        assert(0 <= q <= x) by (nonlinear_arith)
            requires
                x == d * q + r,
                0 <= x,
                d > 0,
                0 <= r < d,
        ;
    } else {
        assert(-x <= q <= 0) by (nonlinear_arith)
            requires
                x == d * q + r,
                0 <= x,
                d < 0,
                0 <= r < -d,
        ;
    }
}

} // verus!
