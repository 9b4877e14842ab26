//! Drawing the reels from the weighted pool.

use vstd::prelude::*;
use rand::Rng;
use crate::symbol::Symbol;

verus! {

/// How many reels a machine has.
pub const REELS: usize = 5;

/// A combination that can come out of the pool: one symbol per reel, each
/// taken from the pool.
pub open spec fn is_draw(pool: Seq<Symbol>, drawn: Seq<Symbol>) -> bool {
    &&& drawn.len() == REELS
    &&& forall|i: int| 0 <= i < drawn.len() ==> pool.contains(#[trigger] drawn[i])
}

/// Calls `rand::rng().random_range(0..len)`: a position below `len`, picked
/// by the thread's random generator. Nothing is claimed of which position
/// comes back, only that it lies in the range. An empty range, on which the
/// generator panics, is ruled out.
#[verifier::external_body]
fn random_index(len: usize) -> (index: usize)
    requires
        len > 0,
    ensures
        index < len,
{
    rand::rng().random_range(0..len)
}

/// Draws one symbol per reel. Each reel is an independent pick over the
/// whole pool, so the same pool position may come up more than once.
pub fn draw_symbols(pool: &[Symbol]) -> (drawn: Vec<Symbol>)
    requires
        pool@.len() > 0,
    ensures
        is_draw(pool@, drawn@),
{
    let mut drawn: Vec<Symbol> = Vec::new();
    let mut reel: usize = 0;
    while reel < REELS
        invariant
            reel <= REELS,
            pool@.len() > 0,
            drawn@.len() == reel,
            forall|i: int| 0 <= i < drawn@.len() ==> pool@.contains(#[trigger] drawn@[i]),
        decreases REELS - reel,
    {
        let index: usize = random_index(pool.len());
        drawn.push(pool[index]);
        reel = reel + 1;
    }
    drawn
}

} // verus!
