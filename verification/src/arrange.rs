//! Putting a combination into the fixed order of the symbols.

use vstd::prelude::*;
use crate::pool::append_copies;
use crate::symbol::{
    Symbol, SYMBOL_KINDS, copies, count_of, count_symbol, lemma_count_bound, lemma_count_concat,
    lemma_count_copies, lemma_count_is_multiplicity, lemma_counts_cover, lemma_rank_at,
};

verus! {

/// No symbol stands before one of lower rank.
pub open spec fn is_ordered(combo: Seq<Symbol>) -> bool {
    forall|i: int, j: int| 0 <= i <= j < combo.len() ==> combo[i].rank() <= combo[j].rank()
}

/// The symbols of `combo` whose rank is below `bound`, in the fixed order.
pub open spec fn arranged_below(combo: Seq<Symbol>, bound: nat) -> Seq<Symbol>
    decreases bound,
{
    if bound == 0 {
        Seq::empty()
    } else {
        let s = Symbol::at((bound - 1) as nat);
        arranged_below(combo, (bound - 1) as nat) + copies(s, count_of(combo, s))
    }
}

/// The combination in the fixed order: the same symbols, each as often as
/// before, lowest rank first.
pub open spec fn arranged(combo: Seq<Symbol>) -> Seq<Symbol> {
    arranged_below(combo, 6)
}

/// What `arranged_below` holds: symbols of rank below the bound only, each as
/// often as in the combination, and in order.
pub proof fn lemma_arranged_below(combo: Seq<Symbol>, bound: nat)
    requires
        bound <= 6,
    ensures
        is_ordered(arranged_below(combo, bound)),
        forall|i: int|
            0 <= i < arranged_below(combo, bound).len() ==> (#[trigger] arranged_below(
                combo,
                bound,
            )[i]).rank() < bound,
        forall|s: Symbol|
            #[trigger] count_of(arranged_below(combo, bound), s) == if s.rank() < bound {
                count_of(combo, s)
            } else {
                0
            },
    decreases bound,
{
    if bound > 0 {
        let lower = (bound - 1) as nat;
        let s0 = Symbol::at(lower);
        let head = arranged_below(combo, lower);
        let run = copies(s0, count_of(combo, s0));
        lemma_arranged_below(combo, lower);
        assert forall|s: Symbol| #[trigger]
            count_of(head + run, s) == if s.rank() < bound {
                count_of(combo, s)
            } else {
                0
            } by {
            lemma_count_concat(head, run, s);
            lemma_count_copies(s0, count_of(combo, s0), s);
            lemma_rank_at(s);
        }
    }
}

/// The arranged combination is ordered, is as long as the combination, and
/// holds each symbol as often: it is the ordered permutation.
pub proof fn lemma_arranged(combo: Seq<Symbol>)
    ensures
        is_ordered(arranged(combo)),
        arranged(combo).len() == combo.len(),
        forall|s: Symbol| #[trigger] count_of(arranged(combo), s) == count_of(combo, s),
        arranged(combo).to_multiset() == combo.to_multiset(),
{
    let out = arranged(combo);
    lemma_arranged_below(combo, 6);
    assert forall|s: Symbol| #[trigger] count_of(out, s) == count_of(combo, s) by {
        lemma_rank_at(s);
    }
    lemma_counts_cover(combo);
    lemma_counts_cover(out);
    assert forall|s: Symbol| out.to_multiset().count(s) == combo.to_multiset().count(s) by {
        lemma_count_is_multiplicity(out, s);
        lemma_count_is_multiplicity(combo, s);
        assert(count_of(out, s) == count_of(combo, s));
    }
    assert(out.to_multiset() =~= combo.to_multiset());
}

/// Combinations that hold every symbol equally often are arranged alike.
pub proof fn lemma_arranged_same_counts(a: Seq<Symbol>, b: Seq<Symbol>)
    requires
        forall|s: Symbol| count_of(a, s) == count_of(b, s),
    ensures
        arranged(a) == arranged(b),
{
    reveal_with_fuel(arranged_below, 7);
}

/// The fixed order of the symbols, as a relation.
pub open spec fn rank_order() -> spec_fn(Symbol, Symbol) -> bool {
    |a: Symbol, b: Symbol| a.rank() <= b.rank()
}

/// There is one way only to put a combination in order: every ordered
/// arrangement of the symbols of `combo` is `arranged(combo)`.
pub proof fn lemma_arranged_unique(combo: Seq<Symbol>, other: Seq<Symbol>)
    requires
        is_ordered(other),
        other.to_multiset() == combo.to_multiset(),
    ensures
        other == arranged(combo),
{
    let leq = rank_order();
    let out = arranged(combo);
    lemma_arranged(combo);
    assert(vstd::relations::sorted_by(other, leq)) by {
        assert forall|i: int, j: int| 0 <= i < j < other.len() implies #[trigger] leq(
            other[i],
            other[j],
        ) by {}
    }
    assert(vstd::relations::sorted_by(out, leq)) by {
        assert forall|i: int, j: int| 0 <= i < j < out.len() implies #[trigger] leq(
            out[i],
            out[j],
        ) by {}
    }
    assert(vstd::relations::total_ordering(leq)) by {
        assert forall|x: Symbol, y: Symbol| #[trigger] leq(x, y) && #[trigger] leq(y, x) implies x
            == y by {
            lemma_rank_at(x);
            lemma_rank_at(y);
        }
    }
    vstd::seq_lib::lemma_sorted_unique(other, out, leq);
}

/// Returns the symbols in the fixed order, lowest rank first.
pub fn sort_symbols(symbols: &[Symbol]) -> (out: Vec<Symbol>)
    ensures
        out@ == arranged(symbols@),
        is_ordered(out@),
        out@.len() == symbols@.len(),
        forall|s: Symbol| #[trigger] count_of(out@, s) == count_of(symbols@, s),
        out@.to_multiset() == symbols@.to_multiset(),
{
    let len: usize = symbols.len();
    let mut out: Vec<Symbol> = Vec::new();
    let mut rank: u8 = 0;
    while rank < SYMBOL_KINDS
        invariant
            rank <= SYMBOL_KINDS,
            symbols@.len() == len,
            out@ == arranged_below(symbols@, rank as nat),
        decreases SYMBOL_KINDS - rank,
    {
        let s: Symbol = Symbol::from_ordinal(rank);
        let n: usize = count_symbol(symbols, s);
        proof {
            lemma_arranged_below(symbols@, rank as nat);
            lemma_counts_cover(out@);
            lemma_counts_cover(symbols@);
            lemma_count_bound(symbols@, s);
            assert(count_of(out@, s) == 0);
            assert(out@.len() + n <= symbols@.len());
        }
        append_copies(&mut out, s, n);
        rank = rank + 1;
    }
    proof {
        lemma_arranged(symbols@);
    }
    out
}

} // verus!
