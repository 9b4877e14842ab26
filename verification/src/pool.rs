//! The weighted pool that the reels are drawn from.

use vstd::prelude::*;
use crate::error::MachineError;
use crate::symbol::{Symbol, copies, count_of, lemma_count_concat, lemma_count_copies};

verus! {

/// Sum of all weights of a weight table.
pub open spec fn total_weight(weights: Seq<(Symbol, u32)>) -> nat
    decreases weights.len(),
{
    if weights.len() == 0 {
        0
    } else {
        total_weight(weights.drop_last()) + weights.last().1 as nat
    }
}

/// The weight that a table gives to `s`: the sum over the entries that name
/// `s`, and 0 where none does.
pub open spec fn weight_of(weights: Seq<(Symbol, u32)>, s: Symbol) -> nat
    decreases weights.len(),
{
    if weights.len() == 0 {
        0
    } else {
        weight_of(weights.drop_last(), s) + if weights.last().0 == s {
            weights.last().1 as nat
        } else {
            0nat
        }
    }
}

/// The pool of a weight table: entry by entry, in the table's order, as many
/// copies of the entry's symbol as its weight says.
pub open spec fn expand(weights: Seq<(Symbol, u32)>) -> Seq<Symbol>
    decreases weights.len(),
{
    if weights.len() == 0 {
        Seq::empty()
    } else {
        expand(weights.drop_last()) + copies(weights.last().0, weights.last().1 as nat)
    }
}

/// The pool is as long as the weights are in total.
pub proof fn lemma_expand_len(weights: Seq<(Symbol, u32)>)
    ensures
        expand(weights).len() == total_weight(weights),
    decreases weights.len(),
{
    if weights.len() > 0 {
        lemma_expand_len(weights.drop_last());
    }
}

/// Each symbol occurs in the pool as often as its weight says.
pub proof fn lemma_expand_count(weights: Seq<(Symbol, u32)>, s: Symbol)
    ensures
        count_of(expand(weights), s) == weight_of(weights, s),
    decreases weights.len(),
{
    if weights.len() > 0 {
        let init = weights.drop_last();
        let last = weights.last();
        lemma_expand_count(init, s);
        lemma_count_concat(expand(init), copies(last.0, last.1 as nat), s);
        lemma_count_copies(last.0, last.1 as nat, s);
    }
}

/// A symbol of weight 0 is not in the pool at all.
pub proof fn lemma_zero_weight_absent(weights: Seq<(Symbol, u32)>, s: Symbol)
    requires
        weight_of(weights, s) == 0,
    ensures
        !expand(weights).contains(s),
{
    lemma_expand_count(weights, s);
    crate::symbol::lemma_count_positive(expand(weights), s);
}

/// A symbol that a single entry names has that entry's weight.
pub proof fn lemma_weight_of_single_entry(weights: Seq<(Symbol, u32)>, k: int)
    requires
        0 <= k < weights.len(),
        forall|j: int| 0 <= j < weights.len() && j != k ==> weights[j].0 != weights[k].0,
    ensures
        weight_of(weights, weights[k].0) == weights[k].1,
    decreases weights.len(),
{
    let init = weights.drop_last();
    if k == weights.len() - 1 {
        lemma_weight_of_absent(init, weights[k].0);
    } else {
        assert(init[k] == weights[k]);
        lemma_weight_of_single_entry(init, k);
    }
}

/// A symbol that no entry names has weight 0.
pub proof fn lemma_weight_of_absent(weights: Seq<(Symbol, u32)>, s: Symbol)
    requires
        forall|j: int| 0 <= j < weights.len() ==> weights[j].0 != s,
    ensures
        weight_of(weights, s) == 0,
    decreases weights.len(),
{
    if weights.len() > 0 {
        lemma_weight_of_absent(weights.drop_last(), s);
    }
}

/// The weights of a leading part of a table add up to no more than those of
/// the whole table.
pub proof fn lemma_total_weight_prefix(weights: Seq<(Symbol, u32)>, k: int)
    requires
        0 <= k <= weights.len(),
    ensures
        total_weight(weights.take(k)) <= total_weight(weights),
    decreases weights.len(),
{
    if k == weights.len() {
        assert(weights.take(k) =~= weights);
    } else {
        assert(weights.take(k) =~= weights.drop_last().take(k));
        lemma_total_weight_prefix(weights.drop_last(), k);
    }
}

/// Appends `n` copies of `s` to `out`.
pub fn append_copies(out: &mut Vec<Symbol>, s: Symbol, n: usize)
    requires
        old(out)@.len() + n <= usize::MAX,
    ensures
        final(out)@ == old(out)@ + copies(s, n as nat),
{
    let mut k: usize = 0;
    while k < n
        invariant
            k <= n,
            out@ == old(out)@ + copies(s, k as nat),
        decreases n - k,
    {
        out.push(s);
        k = k + 1;
        proof {
            assert(out@ =~= old(out)@ + copies(s, k as nat));
        }
    }
}

/// Adds up the weights of a table. Returns `None` where the total is more
/// than the length of a vector can be, so that no pool can be built.
pub fn checked_total_weight(weights: &[(Symbol, u32)]) -> (total: Option<usize>)
    ensures
        match total {
            Some(t) => t == total_weight(weights@),
            None => total_weight(weights@) > usize::MAX,
        },
{
    let mut total: usize = 0;
    let mut i: usize = 0;
    while i < weights.len()
        invariant
            i <= weights.len(),
            total == total_weight(weights@.take(i as int)),
        decreases weights.len() - i,
    {
        let weight: usize = weights[i].1 as usize;
        proof {
            assert(weights@.take(i + 1).drop_last() =~= weights@.take(i as int));
            lemma_total_weight_prefix(weights@, i + 1);
        }
        if weight > usize::MAX - total {
            return None;
        }
        total = total + weight;
        i = i + 1;
    }
    proof {
        assert(weights@.take(i as int) =~= weights@);
    }
    Some(total)
}

/// Builds the pool of a weight table.
///
/// Each entry contributes as many copies of its symbol as its weight says, in
/// the table's order; an entry of weight 0 contributes nothing. A table whose
/// weights add up to 0 is rejected, since nothing could be drawn from its
/// pool. The total weight must fit the length of a vector, which
/// [`checked_total_weight`] tells.
pub fn generate_weighted_symbol_pool(weights: Vec<(Symbol, u32)>) -> (result: Result<
    Vec<Symbol>,
    MachineError,
>)
    requires
        total_weight(weights@) <= usize::MAX,
    ensures
        total_weight(weights@) == 0 <==> result == Err::<Vec<Symbol>, MachineError>(
            MachineError::EmptyPool,
        ),
        total_weight(weights@) > 0 <==> result is Ok,
        result is Ok ==> {
            let pool = result->Ok_0@;
            &&& pool == expand(weights@)
            &&& pool.len() == total_weight(weights@)
            &&& forall|s: Symbol| count_of(pool, s) == weight_of(weights@, s)
        },
{
    let mut pool: Vec<Symbol> = Vec::new();
    let mut i: usize = 0;
    while i < weights.len()
        invariant
            i <= weights.len(),
            total_weight(weights@) <= usize::MAX,
            pool@ == expand(weights@.take(i as int)),
            pool@.len() == total_weight(weights@.take(i as int)),
        decreases weights.len() - i,
    {
        let symbol: Symbol = weights[i].0;
        let weight: u32 = weights[i].1;
        proof {
            assert(weights@.take(i + 1).drop_last() =~= weights@.take(i as int));
            lemma_total_weight_prefix(weights@, i + 1);
        }
        append_copies(&mut pool, symbol, weight as usize);
        i = i + 1;
    }
    proof {
        assert(weights@.take(i as int) =~= weights@);
        assert forall|s: Symbol| count_of(pool@, s) == weight_of(weights@, s) by {
            lemma_expand_count(weights@, s);
        }
    }
    if pool.len() == 0 {
        Err(MachineError::EmptyPool)
    } else {
        Ok(pool)
    }
}

} // verus!
