//! The machine as it is set up for play: its weights, its pay table, the
//! cost of a play and the growth of the jackpot.

use vstd::prelude::*;
use crate::jackpot::JACKPOT_SCALE;
use crate::machine::{SlotMachine, default_token};
use crate::pattern::{
    PatternView, PayPattern, PayRule, RuleView, jackpot_rule, rule_views,
};
use crate::pool::{expand, generate_weighted_symbol_pool, total_weight, weight_of};
use crate::symbol::{Symbol, count_of};

verus! {

/// What one play costs, in whole currency units.
pub const GORE_COST_PER_PLAY: u32 = 10;

/// Growth of the jackpot per play that does not win it: one hundredth of the
/// cost, written in hundred-millionths.
pub const GORE_JACKPOT_GROWTH_RATE: u32 = 1_000_000;

/// The weights of the six symbols, in the order of the symbols.
pub open spec fn gore_weights() -> Seq<(Symbol, u32)> {
    seq![
        (Symbol::Gore, 9u32),
        (Symbol::Mean, 10u32),
        (Symbol::Magnathonk, 12u32),
        (Symbol::Smugbrow, 19u32),
        (Symbol::Smileyes, 20u32),
        (Symbol::Blank, 6u32),
    ]
}

/// The weight of one symbol.
pub open spec fn gore_weight(s: Symbol) -> nat {
    match s {
        Symbol::Gore => 9,
        Symbol::Mean => 10,
        Symbol::Magnathonk => 12,
        Symbol::Smugbrow => 19,
        Symbol::Smileyes => 20,
        Symbol::Blank => 6,
    }
}

/// The pay rules, most valuable first.
pub open spec fn gore_pay_rules() -> Seq<RuleView> {
    seq![
        RuleView { pattern: PatternView::FiveOfAKind(Symbol::Gore), payout: 500, is_jackpot: true },
        RuleView { pattern: PatternView::FiveOfAKind(Symbol::Mean), payout: 250, is_jackpot: false },
        RuleView {
            pattern: PatternView::FiveOfAKind(Symbol::Magnathonk),
            payout: 250,
            is_jackpot: false,
        },
        RuleView {
            pattern: PatternView::ThreeOfAKind(Symbol::Smugbrow),
            payout: 25,
            is_jackpot: false,
        },
        RuleView {
            pattern: PatternView::ThreeOfAKind(Symbol::Smileyes),
            payout: 25,
            is_jackpot: false,
        },
        RuleView { pattern: PatternView::MinCount(Symbol::Smileyes, 2), payout: 6, is_jackpot: false },
        RuleView {
            pattern: PatternView::MinCountAnyDistribution(
                seq![Symbol::Smugbrow, Symbol::Magnathonk, Symbol::Mean],
                3,
            ),
            payout: 6,
            is_jackpot: false,
        },
        RuleView { pattern: PatternView::MinCount(Symbol::Smileyes, 1), payout: 2, is_jackpot: false },
    ]
}

/// The pay table of the machine.
pub fn gore_slots_paytable() -> (table: Vec<PayRule>)
    ensures
        rule_views(table@) == gore_pay_rules(),
        jackpot_rule(table@) == Some(0int),
{
    let mut any_of: Vec<Symbol> = Vec::new();
    any_of.push(Symbol::Smugbrow);
    any_of.push(Symbol::Magnathonk);
    any_of.push(Symbol::Mean);
    assert(any_of@ =~= seq![Symbol::Smugbrow, Symbol::Magnathonk, Symbol::Mean]);
    let mut table: Vec<PayRule> = Vec::new();
    table.push(
        PayRule { pattern: PayPattern::FiveOfAKind(Symbol::Gore), payout: 500, is_jackpot: true },
    );
    table.push(
        PayRule { pattern: PayPattern::FiveOfAKind(Symbol::Mean), payout: 250, is_jackpot: false },
    );
    table.push(
        PayRule {
            pattern: PayPattern::FiveOfAKind(Symbol::Magnathonk),
            payout: 250,
            is_jackpot: false,
        },
    );
    table.push(
        PayRule {
            pattern: PayPattern::ThreeOfAKind(Symbol::Smugbrow),
            payout: 25,
            is_jackpot: false,
        },
    );
    table.push(
        PayRule {
            pattern: PayPattern::ThreeOfAKind(Symbol::Smileyes),
            payout: 25,
            is_jackpot: false,
        },
    );
    table.push(
        PayRule { pattern: PayPattern::MinCount(Symbol::Smileyes, 2), payout: 6, is_jackpot: false },
    );
    table.push(
        PayRule {
            pattern: PayPattern::MinCountAnyDistribution(any_of, 3),
            payout: 6,
            is_jackpot: false,
        },
    );
    table.push(
        PayRule { pattern: PayPattern::MinCount(Symbol::Smileyes, 1), payout: 2, is_jackpot: false },
    );
    assert(rule_views(table@) =~= gore_pay_rules());
    table
}

/// The pool of the machine: 76 symbols, each as often as its weight says.
pub fn generate_gore_slots_weights() -> (pool: Vec<Symbol>)
    ensures
        pool@ == expand(gore_weights()),
        pool@.len() == 76,
        forall|s: Symbol| count_of(pool@, s) == gore_weight(s),
{
    let mut weights: Vec<(Symbol, u32)> = Vec::new();
    weights.push((Symbol::Gore, 9));
    weights.push((Symbol::Mean, 10));
    weights.push((Symbol::Magnathonk, 12));
    weights.push((Symbol::Smugbrow, 19));
    weights.push((Symbol::Smileyes, 20));
    weights.push((Symbol::Blank, 6));
    proof {
        assert(weights@ =~= gore_weights());
        lemma_gore_weights();
    }
    match generate_weighted_symbol_pool(weights) {
        Ok(pool) => pool,
        Err(_) => unreached(),
    }
}

/// The weights add up to 76, and each symbol has the weight of its entry.
pub proof fn lemma_gore_weights()
    ensures
        total_weight(gore_weights()) == 76,
        forall|s: Symbol| weight_of(gore_weights(), s) == gore_weight(s),
{
    reveal_with_fuel(total_weight, 7);
    reveal_with_fuel(weight_of, 7);
    let rest = gore_weights().drop_last().drop_last().drop_last().drop_last().drop_last();
    assert(rest.drop_last().len() == 0);
}

/// Builds the machine. A play costs 10, the jackpot grows by a hundredth of
/// that per play that does not win it, and it starts at its floor of 500
/// unless a jackpot is carried over from an earlier run:
/// `previous_rolling_jackpot` is that amount, and 0 where there is none.
pub fn generate_gore_slots(previous_rolling_jackpot: u64) -> (machine: SlotMachine)
    ensures
        ({
            &&& machine.wf()
            &&& machine.cost() == GORE_COST_PER_PLAY
            &&& machine.growth_rate() == GORE_JACKPOT_GROWTH_RATE
            &&& machine.floor() == 500
            &&& rule_views(machine.rules()) == gore_pay_rules()
            &&& machine.pool() == expand(gore_weights())
            &&& machine.jackpot() == if previous_rolling_jackpot == 0 {
                500 * JACKPOT_SCALE
            } else {
                previous_rolling_jackpot as int
            }
            &&& forall|s: Symbol| machine.token(s) == default_token(s)
        }),
{
    let weighted_symbol_pool: Vec<Symbol> = generate_gore_slots_weights();
    let pay_table: Vec<PayRule> = gore_slots_paytable();
    assert(rule_views(pay_table@)[0] == gore_pay_rules()[0]);
    let cost_per_play: u32 = GORE_COST_PER_PLAY;
    let jackpot_growth_rate: u32 = GORE_JACKPOT_GROWTH_RATE;
    match SlotMachine::new(cost_per_play, pay_table, jackpot_growth_rate, weighted_symbol_pool) {
        Ok(slot_machine) => slot_machine.with_carry_over(previous_rolling_jackpot),
        Err(_) => unreached(),
    }
}

} // verus!
