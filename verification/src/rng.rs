//! The library's only source of randomness: two trusted wrappers
//! around the `rand` crate. Every sampling routine of the tracer is
//! verified code that consumes these.

use vstd::prelude::*;
use crate::fixed::{Fx, FX_ONE};

verus! {

/// Relies on `rand::random::<u16>`: any sixteen-bit value, uniform.
/// Reinterpreted as fixed-point bits it is a fraction in `[0, 1)`;
/// nothing more can be promised of a random draw.
#[verifier::external_body]
pub fn random_fraction() -> (r: Fx)
    ensures
        0 <= r.bits < FX_ONE,
{
    Fx { bits: rand::random::<u16>() as i64 }
}

/// Relies on `rand::Rng::gen_range` on the thread generator: a uniform
/// index in `[0, n)`; the call panics only on an empty range, which the
/// precondition rules out.
#[verifier::external_body]
pub fn random_below(n: usize) -> (r: usize)
    requires
        n > 0,
    ensures
        r < n,
{
    rand::Rng::gen_range(&mut rand::thread_rng(), 0, n)
}

/// A random scalar in `[-1, 1)`, from one uniform fraction; verified.
pub fn random_span() -> (r: Fx)
    ensures
        -FX_ONE <= r.bits < FX_ONE,
{
    let f = random_fraction();
    Fx { bits: 2 * f.bits - FX_ONE }
}

} // verus!
