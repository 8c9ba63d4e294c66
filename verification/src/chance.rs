//! The two places where chance enters the game: a number rolled within
//! limits, and a hand of items drawn without putting any back.

use vstd::prelude::*;
use rand::seq::SliceRandom;
use rand::Rng;

verus! {

/// Whether `drawn` can be had from `pool` by taking items at `positions`,
/// no position twice.
pub open spec fn drawn_at(drawn: Seq<usize>, pool: Seq<usize>, positions: Seq<int>) -> bool {
    &&& positions.len() == drawn.len()
    &&& positions.no_duplicates()
    &&& forall|k: int|
        0 <= k < drawn.len() ==> 0 <= #[trigger] positions[k] < pool.len() && drawn[k]
            == pool[positions[k]]
}

/// `Rng::gen_range` on the thread's generator, with the range `low..high`:
/// some number from `low` up to, not including, `high`. Which one is left
/// open. The range must not be empty.
#[verifier::external_body]
pub(crate) fn random_in_range(low: u8, high: u8) -> (r: u8)
    requires
        low < high,
    ensures
        low <= r < high,
{
    rand::thread_rng().gen_range(low..high)
}

/// `SliceRandom::choose_multiple` on the thread's generator: `amount` items
/// of `pool`, or all of them where `pool` has fewer, each taken from another
/// position. Which positions, and in what order, is left open.
#[verifier::external_body]
pub(crate) fn choose_multiple(pool: &Vec<usize>, amount: usize) -> (r: Vec<usize>)
    ensures
        r.len() == (if amount <= pool.len() {
            amount
        } else {
            pool.len()
        }),
        exists|positions: Seq<int>| drawn_at(r@, pool@, positions),
{
    pool.choose_multiple(&mut rand::thread_rng(), amount).copied().collect()
}

} // verus!
