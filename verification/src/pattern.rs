//! Pay patterns, pay rules and the search for the rule that pays.

use vstd::prelude::*;
use crate::symbol::{Symbol, count_of, count_symbol, lemma_count_full, lemma_count_is_multiplicity};

verus! {

/// A condition on a combination of symbols. It speaks of how often symbols
/// occur, never of where they stand.
#[derive(Debug, PartialEq, Eq, Clone)]
pub enum PayPattern {
    /// Every position holds the symbol.
    FiveOfAKind(Symbol),
    /// At least three positions hold the symbol.
    ThreeOfAKind(Symbol),
    /// The listed symbols together fill at least the given number of
    /// positions.
    MinCountAnyDistribution(Vec<Symbol>, u8),
    /// At least the given number of positions hold the symbol.
    MinCount(Symbol, u8),
}

/// A pattern, what it pays, and whether it pays the rolling jackpot. For a
/// jackpot rule `payout` is the amount the jackpot starts from.
#[derive(Debug, Clone)]
pub struct PayRule {
    pub pattern: PayPattern,
    pub payout: u32,
    pub is_jackpot: bool,
}

/// The mathematical value of a [`PayPattern`].
pub ghost enum PatternView {
    FiveOfAKind(Symbol),
    ThreeOfAKind(Symbol),
    MinCountAnyDistribution(Seq<Symbol>, u8),
    MinCount(Symbol, u8),
}

/// The mathematical value of a [`PayRule`].
pub ghost struct RuleView {
    pub pattern: PatternView,
    pub payout: u32,
    pub is_jackpot: bool,
}

impl View for PayPattern {
    type V = PatternView;

    open spec fn view(&self) -> PatternView {
        match *self {
            PayPattern::FiveOfAKind(s) => PatternView::FiveOfAKind(s),
            PayPattern::ThreeOfAKind(s) => PatternView::ThreeOfAKind(s),
            PayPattern::MinCountAnyDistribution(list, n) => PatternView::MinCountAnyDistribution(
                list@,
                n,
            ),
            PayPattern::MinCount(s, n) => PatternView::MinCount(s, n),
        }
    }
}

impl View for PayRule {
    type V = RuleView;

    open spec fn view(&self) -> RuleView {
        RuleView { pattern: self.pattern@, payout: self.payout, is_jackpot: self.is_jackpot }
    }
}

/// The values of the rules of a pay table, in its order.
pub open spec fn rule_views(rules: Seq<PayRule>) -> Seq<RuleView> {
    rules.map_values(|r: PayRule| r@)
}

/// Sum, over the entries of `list`, of how often the entry occurs in `combo`.
/// An entry that is listed twice is counted twice.
pub open spec fn count_across(combo: Seq<Symbol>, list: Seq<Symbol>) -> nat
    decreases list.len(),
{
    if list.len() == 0 {
        0
    } else {
        count_across(combo, list.drop_last()) + count_of(combo, list.last())
    }
}

impl PatternView {
    /// Whether the combination meets the pattern.
    pub open spec fn matches(self, combo: Seq<Symbol>) -> bool {
        match self {
            PatternView::FiveOfAKind(s) => count_of(combo, s) == combo.len(),
            PatternView::ThreeOfAKind(s) => count_of(combo, s) >= 3,
            PatternView::MinCountAnyDistribution(list, n) => count_across(combo, list) >= n,
            PatternView::MinCount(s, n) => count_of(combo, s) >= n,
        }
    }
}

/// Index of the first rule at or after `start` that the combination meets.
pub open spec fn winning_rule_from(combo: Seq<Symbol>, rules: Seq<PayRule>, start: int) -> Option<
    int,
>
    decreases rules.len() - start,
{
    if start < 0 || start >= rules.len() {
        None
    } else if rules[start]@.pattern.matches(combo) {
        Some(start)
    } else {
        winning_rule_from(combo, rules, start + 1)
    }
}

/// Index of the rule that decides the combination: the first in the table's
/// order that it meets, whatever later rules would pay.
pub open spec fn winning_rule(combo: Seq<Symbol>, rules: Seq<PayRule>) -> Option<int> {
    winning_rule_from(combo, rules, 0)
}

/// Index of the first jackpot rule at or after `start`.
pub open spec fn jackpot_rule_from(rules: Seq<PayRule>, start: int) -> Option<int>
    decreases rules.len() - start,
{
    if start < 0 || start >= rules.len() {
        None
    } else if rules[start].is_jackpot {
        Some(start)
    } else {
        jackpot_rule_from(rules, start + 1)
    }
}

/// Index of the first jackpot rule of a pay table.
pub open spec fn jackpot_rule(rules: Seq<PayRule>) -> Option<int> {
    jackpot_rule_from(rules, 0)
}

/// The winning rule is met, and no rule before it is; without a winning rule
/// no rule is met.
pub proof fn lemma_winning_rule_from(combo: Seq<Symbol>, rules: Seq<PayRule>, start: int)
    requires
        0 <= start <= rules.len(),
    ensures
        match winning_rule_from(combo, rules, start) {
            Some(i) => {
                &&& start <= i < rules.len()
                &&& rules[i]@.pattern.matches(combo)
                &&& forall|j: int| start <= j < i ==> !(#[trigger] rules[j])@.pattern.matches(combo)
            },
            None => forall|j: int|
                start <= j < rules.len() ==> !(#[trigger] rules[j])@.pattern.matches(combo),
        },
    decreases rules.len() - start,
{
    if start < rules.len() && !rules[start]@.pattern.matches(combo) {
        lemma_winning_rule_from(combo, rules, start + 1);
    }
}

/// First match wins: a rule that the combination meets, with no rule before
/// it that it meets, is the winning rule, whatever stands after it.
pub proof fn lemma_first_match_wins(combo: Seq<Symbol>, rules: Seq<PayRule>, i: int)
    requires
        0 <= i < rules.len(),
        rules[i]@.pattern.matches(combo),
        forall|j: int| 0 <= j < i ==> !(#[trigger] rules[j])@.pattern.matches(combo),
    ensures
        winning_rule(combo, rules) == Some(i),
{
    lemma_winning_rule_from(combo, rules, 0);
}

/// The first jackpot rule is a jackpot rule, and no rule before it is; without
/// one the table has no jackpot rule.
pub proof fn lemma_jackpot_rule_from(rules: Seq<PayRule>, start: int)
    requires
        0 <= start <= rules.len(),
    ensures
        match jackpot_rule_from(rules, start) {
            Some(i) => {
                &&& start <= i < rules.len()
                &&& rules[i].is_jackpot
                &&& forall|j: int| start <= j < i ==> !(#[trigger] rules[j]).is_jackpot
            },
            None => forall|j: int| start <= j < rules.len() ==> !(#[trigger] rules[j]).is_jackpot,
        },
    decreases rules.len() - start,
{
    if start < rules.len() && !rules[start].is_jackpot {
        lemma_jackpot_rule_from(rules, start + 1);
    }
}

/// A leading part of a list counts no more than the whole list.
pub proof fn lemma_count_across_prefix(combo: Seq<Symbol>, list: Seq<Symbol>, k: int)
    requires
        0 <= k <= list.len(),
    ensures
        count_across(combo, list.take(k)) <= count_across(combo, list),
    decreases list.len(),
{
    if k == list.len() {
        assert(list.take(k) =~= list);
    } else {
        assert(list.take(k) =~= list.drop_last().take(k));
        lemma_count_across_prefix(combo, list.drop_last(), k);
    }
}

/// Two combinations that hold every symbol equally often give the same
/// count across any list.
pub proof fn lemma_count_across_same_counts(a: Seq<Symbol>, b: Seq<Symbol>, list: Seq<Symbol>)
    requires
        forall|s: Symbol| count_of(a, s) == count_of(b, s),
    ensures
        count_across(a, list) == count_across(b, list),
    decreases list.len(),
{
    if list.len() > 0 {
        lemma_count_across_same_counts(a, b, list.drop_last());
    }
}

/// Two arrangements of the same symbols hold every symbol equally often and
/// are equally long.
pub proof fn lemma_permutation_counts(a: Seq<Symbol>, b: Seq<Symbol>)
    requires
        a.to_multiset() == b.to_multiset(),
    ensures
        a.len() == b.len(),
        forall|s: Symbol| count_of(a, s) == count_of(b, s),
{
    broadcast use vstd::seq_lib::group_to_multiset_ensures;

    assert(a.len() == a.to_multiset().len());
    assert(b.len() == b.to_multiset().len());
    assert forall|s: Symbol| count_of(a, s) == count_of(b, s) by {
        lemma_count_is_multiplicity(a, s);
        lemma_count_is_multiplicity(b, s);
    }
}

/// Whether a pattern is met does not depend on the order of the combination:
/// any two arrangements of the same symbols are judged alike.
pub proof fn lemma_match_ignores_order(a: Seq<Symbol>, b: Seq<Symbol>, pattern: PatternView)
    requires
        a.to_multiset() == b.to_multiset(),
    ensures
        pattern.matches(a) == pattern.matches(b),
{
    lemma_permutation_counts(a, b);
    match pattern {
        PatternView::MinCountAnyDistribution(list, n) => {
            lemma_count_across_same_counts(a, b, list);
        },
        _ => {},
    }
}

/// The winning rule does not depend on the order of the combination.
pub proof fn lemma_winning_rule_ignores_order(
    a: Seq<Symbol>,
    b: Seq<Symbol>,
    rules: Seq<PayRule>,
    start: int,
)
    requires
        a.to_multiset() == b.to_multiset(),
        0 <= start <= rules.len(),
    ensures
        winning_rule_from(a, rules, start) == winning_rule_from(b, rules, start),
    decreases rules.len() - start,
{
    if start < rules.len() {
        lemma_match_ignores_order(a, b, rules[start]@.pattern);
        lemma_winning_rule_ignores_order(a, b, rules, start + 1);
    }
}

/// A five-of-a-kind pattern is met exactly when every position holds its
/// symbol; on a combination of five that is a count of five.
pub proof fn lemma_five_of_a_kind(combo: Seq<Symbol>, s: Symbol)
    ensures
        PatternView::FiveOfAKind(s).matches(combo) <==> forall|i: int|
            0 <= i < combo.len() ==> combo[i] == s,
        combo.len() == 5 ==> (PatternView::FiveOfAKind(s).matches(combo) <==> count_of(combo, s)
            == 5),
{
    lemma_count_full(combo, s);
}

/// Decides whether the combination meets the pattern.
pub fn check_pay_pattern_match(symbols: &[Symbol], pattern: &PayPattern) -> (met: bool)
    ensures
        met == pattern@.matches(symbols@),
{
    match pattern {
        PayPattern::FiveOfAKind(symbol) => count_symbol(symbols, *symbol) == symbols.len(),
        PayPattern::ThreeOfAKind(symbol) => count_symbol(symbols, *symbol) >= 3,
        PayPattern::MinCountAnyDistribution(symbols_list, min_count) => {
            let wanted: usize = *min_count as usize;
            if wanted == 0 {
                return true;
            }
            let mut total: usize = 0;
            let mut i: usize = 0;
            while i < symbols_list.len()
                invariant
                    i <= symbols_list.len(),
                    wanted == *min_count,
                    pattern@ == PatternView::MinCountAnyDistribution(symbols_list@, *min_count),
                    total == count_across(symbols@, symbols_list@.take(i as int)),
                    total < wanted,
                decreases symbols_list.len() - i,
            {
                let n: usize = count_symbol(symbols, symbols_list[i]);
                proof {
                    assert(symbols_list@.take(i + 1).drop_last() =~= symbols_list@.take(i as int));
                    assert(symbols_list@.take(i + 1).last() == symbols_list@[i as int]);
                    assert(count_across(symbols@, symbols_list@.take(i + 1)) == total + n);
                    lemma_count_across_prefix(symbols@, symbols_list@, i + 1);
                }
                if n >= wanted - total {
                    return true;
                }
                total = total + n;
                i = i + 1;
            }
            proof {
                assert(symbols_list@.take(i as int) =~= symbols_list@);
            }
            total >= wanted
        },
        PayPattern::MinCount(symbol, min_count) => count_symbol(symbols, *symbol)
            >= *min_count as usize,
    }
}

/// Finds the rule that decides the combination: the first rule of the table,
/// in its order, whose pattern the combination meets.
pub fn find_winning_rule(symbols: &[Symbol], pay_table: &[PayRule]) -> (found: Option<usize>)
    ensures
        match found {
            Some(i) => winning_rule(symbols@, pay_table@) == Some(i as int),
            None => winning_rule(symbols@, pay_table@) is None,
        },
        match found {
            Some(i) => {
                &&& i < pay_table@.len()
                &&& pay_table@[i as int]@.pattern.matches(symbols@)
                &&& forall|j: int|
                    0 <= j < i ==> !(#[trigger] pay_table@[j])@.pattern.matches(symbols@)
            },
            None => forall|j: int|
                0 <= j < pay_table@.len() ==> !(#[trigger] pay_table@[j])@.pattern.matches(
                    symbols@,
                ),
        },
{
    let mut i: usize = 0;
    while i < pay_table.len()
        invariant
            i <= pay_table.len(),
            winning_rule(symbols@, pay_table@) == winning_rule_from(
                symbols@,
                pay_table@,
                i as int,
            ),
        decreases pay_table.len() - i,
    {
        if check_pay_pattern_match(symbols, &pay_table[i].pattern) {
            proof {
                lemma_winning_rule_from(symbols@, pay_table@, 0);
            }
            return Some(i);
        }
        i = i + 1;
    }
    proof {
        lemma_winning_rule_from(symbols@, pay_table@, 0);
    }
    None
}

/// Finds the first jackpot rule of a pay table.
pub fn find_jackpot_rule(pay_table: &[PayRule]) -> (found: Option<usize>)
    ensures
        match found {
            Some(i) => jackpot_rule(pay_table@) == Some(i as int) && i < pay_table@.len(),
            None => jackpot_rule(pay_table@) is None,
        },
{
    let mut i: usize = 0;
    while i < pay_table.len()
        invariant
            i <= pay_table.len(),
            jackpot_rule(pay_table@) == jackpot_rule_from(pay_table@, i as int),
        decreases pay_table.len() - i,
    {
        if pay_table[i].is_jackpot {
            return Some(i);
        }
        i = i + 1;
    }
    None
}

/// Number of positions of `combo` whose symbol is one of `list`.
pub open spec fn positions_in(combo: Seq<Symbol>, list: Seq<Symbol>) -> nat
    decreases combo.len(),
{
    if combo.len() == 0 {
        0
    } else {
        positions_in(combo.drop_last(), list) + if list.contains(combo.last()) {
            1nat
        } else {
            0nat
        }
    }
}

/// One more position raises the count across a list by as much as the list
/// names the symbol of that position.
pub proof fn lemma_count_across_push(combo: Seq<Symbol>, x: Symbol, list: Seq<Symbol>)
    ensures
        count_across(combo.push(x), list) == count_across(combo, list) + count_of(list, x),
    decreases list.len(),
{
    if list.len() > 0 {
        lemma_count_across_push(combo, x, list.drop_last());
        crate::symbol::lemma_count_push(combo, x, list.last());
    }
}

/// A list that names no symbol twice holds each symbol once or not at all.
pub proof fn lemma_count_in_set(list: Seq<Symbol>, x: Symbol)
    requires
        list.no_duplicates(),
    ensures
        count_of(list, x) == if list.contains(x) {
            1nat
        } else {
            0nat
        },
    decreases list.len(),
{
    crate::symbol::lemma_count_positive(list, x);
    if list.len() > 0 {
        let init = list.drop_last();
        lemma_count_in_set(init, x);
        crate::symbol::lemma_count_positive(init, x);
        if list.last() == x && init.contains(x) {
            let i = choose|i: int| 0 <= i < init.len() && init[i] == x;
            assert(list[i] == list[list.len() - 1]);
        }
    }
}

/// Across a list that names no symbol twice, a set of symbols, the count is
/// the number of positions whose symbol is in the set.
pub proof fn lemma_count_across_set(combo: Seq<Symbol>, list: Seq<Symbol>)
    requires
        list.no_duplicates(),
    ensures
        count_across(combo, list) == positions_in(combo, list),
    decreases combo.len(),
{
    if combo.len() == 0 {
        assert(combo =~= Seq::empty());
        lemma_count_across_empty(list);
    } else {
        let init = combo.drop_last();
        lemma_count_across_set(init, list);
        lemma_count_across_push(init, combo.last(), list);
        lemma_count_in_set(list, combo.last());
        assert(init.push(combo.last()) =~= combo);
    }
}

/// Nothing is counted in a combination without positions.
pub proof fn lemma_count_across_empty(list: Seq<Symbol>)
    ensures
        count_across(Seq::empty(), list) == 0,
    decreases list.len(),
{
    if list.len() > 0 {
        lemma_count_across_empty(list.drop_last());
    }
}

} // verus!
