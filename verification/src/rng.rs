//! The one source of randomness in the core: the type of the next piece.
//! Every function that consumes the drawn type takes it as an argument and
//! is verified for all seven values.

use vstd::prelude::*;
use rand::Rng;

verus! {

/// Relies on `rand::Rng::gen_range` over the non-empty range `0..7`: the
/// sample always lies inside the range. Nothing more is assumed of it.
#[verifier::external_body]
pub fn random_piece_type() -> (r: usize)
    ensures
        r < 7,
{
    rand::thread_rng().gen_range(0..7)
}

} // verus!
