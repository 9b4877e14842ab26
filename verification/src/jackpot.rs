//! Jackpot amounts and the outcome of one spin.
//!
//! An amount is a whole number of hundred-millionths of a currency unit, so
//! it has exactly eight decimal places and no rounding error can build up
//! over many plays.

use vstd::prelude::*;
use vstd::string::StringExecFns;
use crate::arrange::{arranged, sort_symbols};
use crate::draw::{draw_symbols, is_draw};
use crate::pattern::{
    PayRule, find_winning_rule, lemma_winning_rule_ignores_order, winning_rule,
};
use crate::symbol::Symbol;
use crate::text::{decimal, decimal_places, decimal_places_string, decimal_string};

verus! {

/// How many parts of an amount make one currency unit.
pub const JACKPOT_SCALE: u64 = 100_000_000;

/// Currency units in an amount, fractions dropped, and no more than a `u32`
/// holds.
pub open spec fn whole_units(amount: nat) -> nat {
    if amount / (JACKPOT_SCALE as nat) > u32::MAX {
        u32::MAX as nat
    } else {
        amount / (JACKPOT_SCALE as nat)
    }
}

/// Whether the combination wins the jackpot: its winning rule is a jackpot
/// rule.
pub open spec fn jackpot_hit(combo: Seq<Symbol>, rules: Seq<PayRule>) -> bool {
    match winning_rule(combo, rules) {
        Some(i) => rules[i].is_jackpot,
        None => false,
    }
}

/// What the combination pays, as an amount: the whole rolling jackpot under
/// a jackpot rule, the rule's payout under another rule, nothing without a
/// winning rule.
pub open spec fn spin_payout(combo: Seq<Symbol>, rules: Seq<PayRule>, jackpot: u64) -> nat {
    match winning_rule(combo, rules) {
        Some(i) => if rules[i].is_jackpot {
            jackpot as nat
        } else {
            rules[i].payout as nat * JACKPOT_SCALE as nat
        },
        None => 0,
    }
}

/// The jackpot after a play that did not win it: one growth step of cost
/// times rate more, held at the largest amount that can be stored. The cost
/// is a whole number of currency units and the rate a whole number of
/// hundred-millionths, so the step is an amount and the sum has its eight
/// decimal places without anything left to round.
pub open spec fn grown(jackpot: u64, cost: u32, rate: u32) -> nat {
    if jackpot + cost * rate > u64::MAX {
        u64::MAX as nat
    } else {
        (jackpot + cost * rate) as nat
    }
}

/// The jackpot after the combination was played: back at the floor when the
/// jackpot was won, grown by one step otherwise.
pub open spec fn next_jackpot(
    combo: Seq<Symbol>,
    rules: Seq<PayRule>,
    jackpot: u64,
    cost: u32,
    rate: u32,
    floor: u32,
) -> nat {
    if jackpot_hit(combo, rules) {
        floor as nat * JACKPOT_SCALE as nat
    } else {
        grown(jackpot, cost, rate)
    }
}

/// The amount of a whole number of currency units.
pub fn amount_of_units(units: u32) -> (amount: u64)
    ensures
        amount == units as nat * JACKPOT_SCALE as nat,
{
    let wide: u64 = units as u64;
    wide * JACKPOT_SCALE
}

/// The whole currency units of an amount, fractions dropped; an amount
/// beyond the range of `u32` gives `u32::MAX`.
pub fn units_of_amount(amount: u64) -> (units: u32)
    ensures
        units == whole_units(amount as nat),
{
    let whole: u64 = amount / JACKPOT_SCALE;
    if whole > 0xffff_ffff {
        0xffff_ffff
    } else {
        whole as u32
    }
}

/// Splits an amount into whole currency units and hundred-millionths: every
/// amount is a numeral with exactly eight decimal places.
pub fn split_amount(amount: u64) -> (parts: (u64, u32))
    ensures
        parts.0 * JACKPOT_SCALE + parts.1 == amount,
        parts.1 < JACKPOT_SCALE,
{
    let whole: u64 = amount / JACKPOT_SCALE;
    let part: u64 = amount % JACKPOT_SCALE;
    (whole, part as u32)
}

/// Grows the jackpot by one step of `cost_per_play` times
/// `jackpot_growth_rate`, the rate being given in hundred-millionths of the
/// cost.
pub fn grow_jackpot(current_jackpot: u64, cost_per_play: u32, jackpot_growth_rate: u32) -> (next:
    u64)
    ensures
        next == grown(current_jackpot, cost_per_play, jackpot_growth_rate),
{
    let cost: u64 = cost_per_play as u64;
    let rate: u64 = jackpot_growth_rate as u64;
    assert(cost * rate <= 0xffff_ffff * 0xffff_ffff) by (nonlinear_arith)
        requires
            cost <= 0xffff_ffff,
            rate <= 0xffff_ffff,
    ;
    let step: u64 = cost * rate;
    if step > u64::MAX - current_jackpot {
        u64::MAX
    } else {
        current_jackpot + step
    }
}

/// Settles a spin whose reels have stopped on `drawn`.
///
/// Returns the payout as an amount, the jackpot after the spin, and the
/// combination in the fixed order of the symbols. The first rule of the pay
/// table that the combination meets decides; the order in which the reels
/// came up does not matter.
pub fn settle_spin(
    drawn: &[Symbol],
    pay_table: &[PayRule],
    current_jackpot: u64,
    cost_per_play: u32,
    jackpot_growth_rate: u32,
    min_jackpot: u32,
) -> (out: (u64, u64, Vec<Symbol>))
    ensures
        out.0 == spin_payout(drawn@, pay_table@, current_jackpot),
        out.1 == next_jackpot(
            drawn@,
            pay_table@,
            current_jackpot,
            cost_per_play,
            jackpot_growth_rate,
            min_jackpot,
        ),
        out.2@ == arranged(drawn@),
{
    let arranged_symbols: Vec<Symbol> = sort_symbols(drawn);
    proof {
        lemma_winning_rule_ignores_order(arranged_symbols@, drawn@, pay_table@, 0);
    }
    let mut spin_payout: u64 = 0;
    let mut jackpot_hit_this_spin: bool = false;
    match find_winning_rule(arranged_symbols.as_slice(), pay_table) {
        Some(i) => {
            if pay_table[i].is_jackpot {
                spin_payout = current_jackpot;
                jackpot_hit_this_spin = true;
            } else {
                spin_payout = amount_of_units(pay_table[i].payout);
            }
        },
        None => {},
    }
    let next_jackpot_value: u64 = if jackpot_hit_this_spin {
        amount_of_units(min_jackpot)
    } else {
        grow_jackpot(current_jackpot, cost_per_play, jackpot_growth_rate)
    };
    (spin_payout, next_jackpot_value, arranged_symbols)
}

/// Spins the reels once and settles the spin.
///
/// The combination is drawn at random from the pool, so the contract states
/// what holds whichever combination came up: the result is that of
/// [`settle_spin`] on some combination that the pool can give.
pub fn single_spin(
    weighted_symbol_pool: &[Symbol],
    pay_table: &[PayRule],
    current_jackpot: u64,
    cost_per_play: u32,
    jackpot_growth_rate: u32,
    min_jackpot: u32,
) -> (out: (u64, u64, Vec<Symbol>))
    requires
        weighted_symbol_pool@.len() > 0,
    ensures
        exists|drawn: Seq<Symbol>|
            {
                &&& is_draw(weighted_symbol_pool@, drawn)
                &&& out.0 == spin_payout(drawn, pay_table@, current_jackpot)
                &&& out.1 == next_jackpot(
                    drawn,
                    pay_table@,
                    current_jackpot,
                    cost_per_play,
                    jackpot_growth_rate,
                    min_jackpot,
                )
                &&& out.2@ == #[trigger] arranged(drawn)
            },
{
    let drawn: Vec<Symbol> = draw_symbols(weighted_symbol_pool);
    let out = settle_spin(
        drawn.as_slice(),
        pay_table,
        current_jackpot,
        cost_per_play,
        jackpot_growth_rate,
        min_jackpot,
    );
    proof {
        assert(is_draw(weighted_symbol_pool@, drawn@) && out.2@ == arranged(drawn@));
    }
    out
}

/// A play that does not win the jackpot raises it by exactly cost times
/// rate, as long as the result can be stored.
pub proof fn lemma_miss_grows_jackpot(
    combo: Seq<Symbol>,
    rules: Seq<PayRule>,
    jackpot: u64,
    cost: u32,
    rate: u32,
    floor: u32,
)
    requires
        !jackpot_hit(combo, rules),
        jackpot + cost * rate <= u64::MAX,
    ensures
        next_jackpot(combo, rules, jackpot, cost, rate, floor) == jackpot + cost * rate,
{
}

/// Between two wins the jackpot never falls.
pub proof fn lemma_miss_never_lowers_jackpot(
    combo: Seq<Symbol>,
    rules: Seq<PayRule>,
    jackpot: u64,
    cost: u32,
    rate: u32,
    floor: u32,
)
    requires
        !jackpot_hit(combo, rules),
    ensures
        jackpot <= next_jackpot(combo, rules, jackpot, cost, rate, floor) <= u64::MAX,
{
    assert(cost * rate >= 0) by (nonlinear_arith)
        requires
            cost >= 0,
            rate >= 0,
    ;
}

/// The jackpot after `plays` plays in a row that did not win it.
pub open spec fn grown_over(jackpot: u64, cost: u32, rate: u32, plays: nat) -> nat
    decreases plays,
{
    if plays == 0 {
        jackpot as nat
    } else {
        grown(grown_over(jackpot, cost, rate, (plays - 1) as nat) as u64, cost, rate)
    }
}

/// Any number of plays in a row that do not win the jackpot raise it by that
/// number of growth steps, as long as the result can be stored.
pub proof fn lemma_misses_add_up(jackpot: u64, cost: u32, rate: u32, plays: nat)
    requires
        jackpot + plays * (cost * rate) <= u64::MAX,
    ensures
        grown_over(jackpot, cost, rate, plays) == jackpot + plays * (cost * rate),
    decreases plays,
{
    let step = cost * rate;
    assert(step >= 0) by (nonlinear_arith)
        requires
            step == cost * rate,
            cost >= 0,
            rate >= 0,
    ;
    if plays > 0 {
        let before = (plays - 1) as nat;
        assert(before * step + step == plays * step) by (nonlinear_arith)
            requires
                before + 1 == plays,
        ;
        assert(before * step >= 0) by (nonlinear_arith)
            requires
                step >= 0,
        ;
        lemma_misses_add_up(jackpot, cost, rate, before);
        assert(grown_over(jackpot, cost, rate, before) == jackpot + before * step);
    } else {
        assert(plays * step == 0) by (nonlinear_arith)
            requires
                plays == 0,
        ;
    }
}

/// Three plays in a row that do not win the jackpot raise it by three growth
/// steps: the steps add up, they do not compound.
pub proof fn lemma_three_misses_add_up(
    first: Seq<Symbol>,
    second: Seq<Symbol>,
    third: Seq<Symbol>,
    rules: Seq<PayRule>,
    jackpot: u64,
    cost: u32,
    rate: u32,
    floor: u32,
)
    requires
        !jackpot_hit(first, rules),
        !jackpot_hit(second, rules),
        !jackpot_hit(third, rules),
        jackpot + 3 * (cost * rate) <= u64::MAX,
    ensures
        ({
            let after_first = next_jackpot(first, rules, jackpot, cost, rate, floor) as u64;
            let after_second = next_jackpot(second, rules, after_first, cost, rate, floor) as u64;
            next_jackpot(third, rules, after_second, cost, rate, floor)
        }) == jackpot + 3 * (cost * rate),
{
    assert(cost * rate >= 0) by (nonlinear_arith)
        requires
            cost >= 0,
            rate >= 0,
    ;
}

/// A play that wins the jackpot puts it back to the floor, whatever it stood
/// at before.
pub proof fn lemma_hit_resets_jackpot(
    combo: Seq<Symbol>,
    rules: Seq<PayRule>,
    jackpot: u64,
    cost: u32,
    rate: u32,
    floor: u32,
)
    requires
        jackpot_hit(combo, rules),
    ensures
        next_jackpot(combo, rules, jackpot, cost, rate, floor) == floor * JACKPOT_SCALE,
        spin_payout(combo, rules, jackpot) == jackpot,
{
}

/// The outcome of a spin depends on the symbols that came up, not on the
/// reels they came up on.
pub proof fn lemma_outcome_ignores_order(
    a: Seq<Symbol>,
    b: Seq<Symbol>,
    rules: Seq<PayRule>,
    jackpot: u64,
    cost: u32,
    rate: u32,
    floor: u32,
)
    requires
        a.to_multiset() == b.to_multiset(),
    ensures
        winning_rule(a, rules) == winning_rule(b, rules),
        spin_payout(a, rules, jackpot) == spin_payout(b, rules, jackpot),
        next_jackpot(a, rules, jackpot, cost, rate, floor) == next_jackpot(
            b,
            rules,
            jackpot,
            cost,
            rate,
            floor,
        ),
        arranged(a) == arranged(b),
{
    lemma_winning_rule_ignores_order(a, b, rules, 0);
    crate::pattern::lemma_permutation_counts(a, b);
    crate::arrange::lemma_arranged_same_counts(a, b);
}

/// Every amount is a whole number of currency units and a fraction of fewer
/// than a hundred million hundred-millionths: a numeral of eight decimal
/// places, with nothing left over.
pub proof fn lemma_amount_has_eight_places(amount: u64)
    ensures
        amount == (amount / JACKPOT_SCALE) * JACKPOT_SCALE + amount % JACKPOT_SCALE,
        0 <= amount % JACKPOT_SCALE < JACKPOT_SCALE,
        decimal_places((amount % JACKPOT_SCALE) as nat, 8).len() <= 8,
{
    crate::text::lemma_decimal_places_len((amount % JACKPOT_SCALE) as nat, 8);
}

/// An amount as it is written: the whole currency units, and behind a point
/// the decimal places without the zeros at their end. An amount without a
/// fraction is written without a point.
pub open spec fn amount_text(amount: u64) -> Seq<char> {
    let whole = decimal((amount / JACKPOT_SCALE) as nat);
    if amount % JACKPOT_SCALE == 0 {
        whole
    } else {
        whole + "."@ + decimal_places((amount % JACKPOT_SCALE) as nat, 8)
    }
}

/// Writes an amount in currency units, with as many of its eight decimal
/// places as it needs.
pub fn amount_string(amount: u64) -> (text: String)
    ensures
        text@ == amount_text(amount),
{
    let (whole, fraction) = split_amount(amount);
    let mut text: String = decimal_string(whole);
    if fraction != 0 {
        let places: String = decimal_places_string(fraction as u64, 8);
        text.append(".");
        text.append(places.as_str());
    }
    text
}

} // verus!
