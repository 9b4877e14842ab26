//! The reel alphabet and counting of symbols in a combination.

use vstd::prelude::*;

verus! {

/// One face of a reel. The declaration order is the order in which a
/// combination is arranged before it is shown.
#[derive(Debug, PartialEq, Eq, Structural, PartialOrd, Ord, Clone, Copy, Hash)]
pub enum Symbol {
    Gore,
    Mean,
    Magnathonk,
    Smugbrow,
    Smileyes,
    Blank,
}

/// How many different symbols there are.
pub const SYMBOL_KINDS: u8 = 6;

impl Symbol {
    /// Position of the symbol in the fixed total order.
    pub open spec fn rank(self) -> nat {
        match self {
            Symbol::Gore => 0,
            Symbol::Mean => 1,
            Symbol::Magnathonk => 2,
            Symbol::Smugbrow => 3,
            Symbol::Smileyes => 4,
            Symbol::Blank => 5,
        }
    }

    /// The symbol that stands at `rank` in the fixed total order.
    pub open spec fn at(rank: nat) -> Symbol {
        if rank == 0 {
            Symbol::Gore
        } else if rank == 1 {
            Symbol::Mean
        } else if rank == 2 {
            Symbol::Magnathonk
        } else if rank == 3 {
            Symbol::Smugbrow
        } else if rank == 4 {
            Symbol::Smileyes
        } else {
            Symbol::Blank
        }
    }

    /// Position of the symbol in the fixed total order, from 0 to 5.
    pub fn ordinal(self) -> (r: u8)
        ensures
            r == self.rank(),
            r < SYMBOL_KINDS,
    {
        match self {
            Symbol::Gore => 0,
            Symbol::Mean => 1,
            Symbol::Magnathonk => 2,
            Symbol::Smugbrow => 3,
            Symbol::Smileyes => 4,
            Symbol::Blank => 5,
        }
    }

    /// The symbol with the given position, the inverse of [`Symbol::ordinal`].
    pub fn from_ordinal(rank: u8) -> (s: Symbol)
        requires
            rank < SYMBOL_KINDS,
        ensures
            s == Symbol::at(rank as nat),
            s.rank() == rank,
    {
        if rank == 0 {
            Symbol::Gore
        } else if rank == 1 {
            Symbol::Mean
        } else if rank == 2 {
            Symbol::Magnathonk
        } else if rank == 3 {
            Symbol::Smugbrow
        } else if rank == 4 {
            Symbol::Smileyes
        } else {
            Symbol::Blank
        }
    }
}

/// `rank` and `at` are inverse to each other on the six symbols.
pub proof fn lemma_rank_at(s: Symbol)
    ensures
        s.rank() < 6,
        Symbol::at(s.rank()) == s,
{
}

/// Number of positions of `combo` that hold `s`.
pub open spec fn count_of(combo: Seq<Symbol>, s: Symbol) -> nat
    decreases combo.len(),
{
    if combo.len() == 0 {
        0
    } else {
        count_of(combo.drop_last(), s) + if combo.last() == s {
            1nat
        } else {
            0nat
        }
    }
}

/// `n` copies of one symbol.
pub open spec fn copies(s: Symbol, n: nat) -> Seq<Symbol> {
    Seq::new(n, |i: int| s)
}

/// Appending one symbol raises exactly that symbol's count by one.
pub proof fn lemma_count_push(combo: Seq<Symbol>, x: Symbol, s: Symbol)
    ensures
        count_of(combo.push(x), s) == count_of(combo, s) + if x == s {
            1nat
        } else {
            0nat
        },
{
    assert(combo.push(x).drop_last() =~= combo);
}

/// A count never exceeds the length of the combination.
pub proof fn lemma_count_bound(combo: Seq<Symbol>, s: Symbol)
    ensures
        count_of(combo, s) <= combo.len(),
    decreases combo.len(),
{
    if combo.len() > 0 {
        lemma_count_bound(combo.drop_last(), s);
    }
}

/// Counts add up over concatenation.
pub proof fn lemma_count_concat(a: Seq<Symbol>, b: Seq<Symbol>, s: Symbol)
    ensures
        count_of(a + b, s) == count_of(a, s) + count_of(b, s),
    decreases b.len(),
{
    if b.len() == 0 {
        assert(a + b =~= a);
    } else {
        assert((a + b).drop_last() =~= a + b.drop_last());
        lemma_count_concat(a, b.drop_last(), s);
    }
}

/// A run of `n` copies of `x` holds `n` times `x` and no other symbol.
pub proof fn lemma_count_copies(x: Symbol, n: nat, s: Symbol)
    ensures
        count_of(copies(x, n), s) == if x == s {
            n
        } else {
            0
        },
    decreases n,
{
    if n > 0 {
        assert(copies(x, n).drop_last() =~= copies(x, (n - 1) as nat));
        lemma_count_copies(x, (n - 1) as nat, s);
    }
}

/// The count is the multiplicity of the symbol in the combination taken as
/// a multiset.
pub proof fn lemma_count_is_multiplicity(combo: Seq<Symbol>, s: Symbol)
    ensures
        count_of(combo, s) == combo.to_multiset().count(s),
    decreases combo.len(),
{
    broadcast use vstd::seq_lib::group_to_multiset_ensures;

    if combo.len() == 0 {
        assert(combo.to_multiset().len() == 0);
    } else {
        let init = combo.drop_last();
        lemma_count_is_multiplicity(init, s);
        assert(init.push(combo.last()) =~= combo);
        assert(combo.to_multiset() =~= init.to_multiset().insert(combo.last()));
    }
}

/// The six counts of a combination add up to its length.
pub proof fn lemma_counts_cover(combo: Seq<Symbol>)
    ensures
        count_of(combo, Symbol::Gore) + count_of(combo, Symbol::Mean) + count_of(
            combo,
            Symbol::Magnathonk,
        ) + count_of(combo, Symbol::Smugbrow) + count_of(combo, Symbol::Smileyes) + count_of(
            combo,
            Symbol::Blank,
        ) == combo.len(),
    decreases combo.len(),
{
    if combo.len() > 0 {
        lemma_counts_cover(combo.drop_last());
    }
}

/// A symbol is counted at least once exactly when it occurs.
pub proof fn lemma_count_positive(combo: Seq<Symbol>, s: Symbol)
    ensures
        count_of(combo, s) > 0 <==> exists|i: int| 0 <= i < combo.len() && combo[i] == s,
    decreases combo.len(),
{
    if combo.len() > 0 {
        let init = combo.drop_last();
        lemma_count_positive(init, s);
        if count_of(combo, s) > 0 {
            if combo.last() == s {
                assert(combo[combo.len() - 1] == s);
            } else {
                let i = choose|i: int| 0 <= i < init.len() && init[i] == s;
                assert(combo[i] == s);
            }
        }
        if exists|i: int| 0 <= i < combo.len() && combo[i] == s {
            let i = choose|i: int| 0 <= i < combo.len() && combo[i] == s;
            if i < combo.len() - 1 {
                assert(init[i] == s);
            }
        }
    }
}

/// A symbol fills every position exactly when its count is the length.
pub proof fn lemma_count_full(combo: Seq<Symbol>, s: Symbol)
    ensures
        count_of(combo, s) == combo.len() <==> forall|i: int|
            0 <= i < combo.len() ==> combo[i] == s,
    decreases combo.len(),
{
    if combo.len() > 0 {
        let init = combo.drop_last();
        lemma_count_full(init, s);
        lemma_count_bound(init, s);
        if count_of(combo, s) == combo.len() {
            assert forall|i: int| 0 <= i < combo.len() implies combo[i] == s by {
                if i < combo.len() - 1 {
                    assert(init[i] == s);
                }
            }
        }
        if forall|i: int| 0 <= i < combo.len() ==> combo[i] == s {
            assert forall|i: int| 0 <= i < init.len() implies init[i] == s by {
                assert(combo[i] == s);
            }
        }
    }
}

/// Counts how many positions of `symbols` hold `s`.
pub fn count_symbol(symbols: &[Symbol], s: Symbol) -> (n: usize)
    ensures
        n == count_of(symbols@, s),
{
    let mut n: usize = 0;
    let mut i: usize = 0;
    while i < symbols.len()
        invariant
            i <= symbols.len(),
            n == count_of(symbols@.take(i as int), s),
            n <= i,
        decreases symbols.len() - i,
    {
        proof {
            assert(symbols@.take(i + 1) =~= symbols@.take(i as int).push(symbols@[i as int]));
            lemma_count_push(symbols@.take(i as int), symbols@[i as int], s);
        }
        if symbols[i] == s {
            n = n + 1;
        }
        i = i + 1;
    }
    proof {
        assert(symbols@.take(i as int) =~= symbols@);
    }
    n
}

} // verus!
