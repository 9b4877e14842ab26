use slot_machine::jackpot::{
    amount_of_units, grow_jackpot, settle_spin, single_spin, split_amount, units_of_amount,
    JACKPOT_SCALE,
};
use slot_machine::symbol::Symbol;
use slot_machine::text::{decimal_string, join_text, repeat_text};
use slot_machine::{
    generate_gore_slots, gore_slots_paytable, MachineError, PayPattern, PayRule, SlotMachine,
};

use Symbol::{Blank, Gore, Magnathonk, Mean, Smileyes, Smugbrow};

const GORE: &str = "<:gore:854587419391164457>";
const MEAN: &str = "<:mean:1260290196541280288>";
const MAGNATHONK: &str = "<:magnathonk:928158272836472872>";
const SMUGBROW: &str = "<:smugbrow:1013536644621664268>";
const SMILEYES: &str = "<:smileyes:927806099661422613>";
const BLANK: &str = "<:white:785272845890486293>";

fn rule(pattern: PayPattern, payout: u32, is_jackpot: bool) -> PayRule {
    PayRule { pattern, payout, is_jackpot }
}

fn two_rule_machine() -> SlotMachine {
    let rules = vec![
        rule(PayPattern::FiveOfAKind(Gore), 500, true),
        rule(PayPattern::MinCount(Gore, 1), 2, false),
    ];
    SlotMachine::new(10, rules, 1_000_000, vec![Gore, Blank]).ok().unwrap()
}

#[test]
fn amounts_have_eight_decimal_places() {
    assert_eq!(JACKPOT_SCALE, 100_000_000);
    assert_eq!(amount_of_units(500), 50_000_000_000);
    assert_eq!(amount_of_units(0), 0);
    assert_eq!(amount_of_units(u32::MAX), 429_496_729_500_000_000);
    assert_eq!(split_amount(50_010_000_000), (500, 10_000_000));
    assert_eq!(split_amount(99_999_999), (0, 99_999_999));
    assert_eq!(split_amount(u64::MAX), (184_467_440_737, 9_551_615));
}

#[test]
fn units_of_amount_drops_fractions_and_saturates() {
    assert_eq!(units_of_amount(50_020_000_000), 500);
    assert_eq!(units_of_amount(99_999_999), 0);
    assert_eq!(units_of_amount(100_000_000), 1);
    assert_eq!(units_of_amount(429_496_729_599_999_999), u32::MAX);
    assert_eq!(units_of_amount(u64::MAX), u32::MAX);
}

#[test]
fn growth_is_cost_times_rate() {
    assert_eq!(grow_jackpot(50_000_000_000, 10, 1_000_000), 50_010_000_000);
    assert_eq!(grow_jackpot(0, 3, 5), 15);
    assert_eq!(grow_jackpot(7, 0, 1_000_000), 7);
    assert_eq!(grow_jackpot(u64::MAX - 5, 10, 1_000_000), u64::MAX);
    assert_eq!(grow_jackpot(u64::MAX - 15, 3, 5), u64::MAX);
}

#[test]
fn missing_the_jackpot_grows_it() {
    let rules = gore_slots_paytable();
    let (payout, next, symbols) =
        settle_spin(&[Blank, Gore, Blank, Mean, Blank], &rules, 50_000_000_000, 10, 1_000_000, 500);
    assert_eq!(payout, 0);
    assert_eq!(next, 50_010_000_000);
    assert_eq!(symbols, vec![Gore, Mean, Blank, Blank, Blank]);
}

#[test]
fn three_misses_add_up() {
    let rules = gore_slots_paytable();
    let mut jackpot = 50_000_000_000u64;
    for _ in 0..3 {
        let (_, next, _) =
            settle_spin(&[Blank, Blank, Blank, Blank, Blank], &rules, jackpot, 10, 1_000_000, 500);
        jackpot = next;
    }
    assert_eq!(jackpot, 50_030_000_000);
}

#[test]
fn a_smaller_win_pays_the_rule_and_grows_the_jackpot() {
    let rules = gore_slots_paytable();
    let (payout, next, _) = settle_spin(
        &[Smugbrow, Blank, Smugbrow, Gore, Smugbrow],
        &rules,
        50_000_000_000,
        10,
        1_000_000,
        500,
    );
    assert_eq!(payout, 25 * JACKPOT_SCALE);
    assert_eq!(next, 50_010_000_000);
    let (payout, _, _) =
        settle_spin(&[Smileyes, Blank, Blank, Gore, Gore], &rules, 50_000_000_000, 10, 1_000_000, 500);
    assert_eq!(payout, 2 * JACKPOT_SCALE);
    let (payout, _, _) = settle_spin(
        &[Smileyes, Blank, Smileyes, Gore, Gore],
        &rules,
        50_000_000_000,
        10,
        1_000_000,
        500,
    );
    assert_eq!(payout, 6 * JACKPOT_SCALE);
    let (payout, _, _) =
        settle_spin(&[Mean, Blank, Magnathonk, Gore, Smugbrow], &rules, 50_000_000_000, 10, 1_000_000, 500);
    assert_eq!(payout, 6 * JACKPOT_SCALE);
    let (payout, _, _) =
        settle_spin(&[Mean, Mean, Mean, Mean, Mean], &rules, 50_000_000_000, 10, 1_000_000, 500);
    assert_eq!(payout, 250 * JACKPOT_SCALE);
}

#[test]
fn winning_the_jackpot_resets_it_to_the_floor() {
    let rules = gore_slots_paytable();
    for jackpot in [50_000_000_000u64, 50_020_000_000, 1, u64::MAX] {
        let (payout, next, _) =
            settle_spin(&[Gore, Gore, Gore, Gore, Gore], &rules, jackpot, 10, 1_000_000, 500);
        assert_eq!(payout, jackpot);
        assert_eq!(next, 50_000_000_000);
    }
}

#[test]
fn jackpot_rule_comes_before_a_later_match() {
    let mut machine = two_rule_machine();
    let result = machine.play_drawn(&[Gore, Gore, Gore, Gore, Gore]);
    assert_eq!(result.payout, 500);
    let result = machine.play_drawn(&[Gore, Blank, Blank, Blank, Blank]);
    assert_eq!(result.payout, 2);
}

#[test]
fn end_to_end_scenario() {
    let rules = vec![rule(PayPattern::FiveOfAKind(Gore), 500, true)];
    let mut machine = SlotMachine::new(10, rules, 1_000_000, vec![Gore, Blank]).ok().unwrap();
    assert_eq!(machine.rolling_jackpot(), 50_000_000_000);
    assert_eq!(machine.min_jackpot(), 500);
    assert_eq!(machine.cost_per_play(), 10);

    let first = machine.play_drawn(&[Blank, Gore, Blank, Gore, Blank]);
    assert_eq!(first.payout, 0);
    assert_eq!(first.current_jackpot_value, 50_010_000_000);
    assert_eq!(first.symbols, vec![GORE, GORE, BLANK, BLANK, BLANK]);

    let second = machine.play_drawn(&[Blank, Blank, Blank, Blank, Blank]);
    assert_eq!(second.payout, 0);
    assert_eq!(second.current_jackpot_value, 50_020_000_000);

    let (amount, _, _) = settle_spin(
        &[Gore, Gore, Gore, Gore, Gore],
        machine.pay_table(),
        machine.rolling_jackpot(),
        machine.cost_per_play(),
        machine.jackpot_growth_rate(),
        machine.min_jackpot(),
    );
    assert_eq!(amount, 50_020_000_000);
    let third = machine.play_drawn(&[Gore, Gore, Gore, Gore, Gore]);
    assert_eq!(third.payout, 500);
    assert_eq!(third.current_jackpot_value, 50_000_000_000);
    assert_eq!(machine.rolling_jackpot(), 50_000_000_000);

    let fourth = machine.play_drawn(&[Blank, Blank, Blank, Blank, Blank]);
    assert_eq!(fourth.current_jackpot_value, 50_010_000_000);
}

#[test]
fn a_pay_table_without_jackpot_rule_is_rejected() {
    let rules = vec![rule(PayPattern::MinCount(Gore, 1), 2, false)];
    assert_eq!(
        SlotMachine::new(10, rules, 1_000_000, vec![Gore]).err(),
        Some(MachineError::InvalidPayTable)
    );
    assert_eq!(
        SlotMachine::new(10, Vec::new(), 1_000_000, vec![Gore]).err(),
        Some(MachineError::InvalidPayTable)
    );
}

#[test]
fn an_empty_pool_is_rejected() {
    let rules = vec![rule(PayPattern::FiveOfAKind(Gore), 500, true)];
    assert_eq!(
        SlotMachine::new(10, rules, 1_000_000, Vec::new()).err(),
        Some(MachineError::EmptyPool)
    );
}

#[test]
fn a_missing_jackpot_rule_is_reported_before_an_empty_pool() {
    assert_eq!(
        SlotMachine::new(10, Vec::new(), 1_000_000, Vec::new()).err(),
        Some(MachineError::InvalidPayTable)
    );
}

#[test]
fn the_floor_is_the_first_jackpot_rule() {
    let rules = vec![
        rule(PayPattern::MinCount(Gore, 1), 2, false),
        rule(PayPattern::FiveOfAKind(Mean), 300, true),
        rule(PayPattern::FiveOfAKind(Gore), 900, true),
    ];
    let machine = SlotMachine::new(10, rules, 1_000_000, vec![Gore]).ok().unwrap();
    assert_eq!(machine.min_jackpot(), 300);
    assert_eq!(machine.rolling_jackpot(), 300 * JACKPOT_SCALE);
    assert_eq!(machine.pay_table().len(), 3);
}

#[test]
fn machines_that_were_built_are_playable() {
    assert!(generate_gore_slots(0).is_playable());
    assert!(generate_gore_slots(77).is_playable());
    assert!(two_rule_machine().is_playable());
}

#[test]
fn every_symbol_has_its_token() {
    let machine = generate_gore_slots(0);
    assert_eq!(machine.get_symbol_string(Gore), GORE);
    assert_eq!(machine.get_symbol_string(Mean), MEAN);
    assert_eq!(machine.get_symbol_string(Magnathonk), MAGNATHONK);
    assert_eq!(machine.get_symbol_string(Smugbrow), SMUGBROW);
    assert_eq!(machine.get_symbol_string(Smileyes), SMILEYES);
    assert_eq!(machine.get_symbol_string(Blank), BLANK);
}

#[test]
fn configured_machine_starts_at_its_floor() {
    let machine = generate_gore_slots(0);
    assert_eq!(machine.cost_per_play(), 10);
    assert_eq!(machine.min_jackpot(), 500);
    assert_eq!(machine.rolling_jackpot(), 50_000_000_000);
    assert_eq!(machine.jackpot_growth_rate(), 1_000_000);
    assert_eq!(machine.weighted_symbol_pool().len(), 76);
    assert_eq!(machine.pay_table().len(), 8);
    assert!(machine.pay_table()[0].is_jackpot);
    assert_eq!(machine.pay_table()[0].pattern, PayPattern::FiveOfAKind(Gore));
    assert_eq!(
        machine.pay_table()[6].pattern,
        PayPattern::MinCountAnyDistribution(vec![Smugbrow, Magnathonk, Mean], 3)
    );
    assert_eq!(machine.pay_table()[7].payout, 2);
}

#[test]
fn configured_machine_takes_a_carry_over() {
    let machine = generate_gore_slots(61_234_567_890);
    assert_eq!(machine.rolling_jackpot(), 61_234_567_890);
    assert_eq!(machine.min_jackpot(), 500);
    let mut machine = machine;
    let result = machine.play_drawn(&[Gore, Gore, Gore, Gore, Gore]);
    assert_eq!(result.payout, 612);
    assert_eq!(result.current_jackpot_value, 50_000_000_000);
}

#[test]
fn carry_over_of_zero_keeps_the_jackpot() {
    let machine = two_rule_machine().with_carry_over(0);
    assert_eq!(machine.rolling_jackpot(), 50_000_000_000);
    let machine = machine.with_carry_over(12);
    assert_eq!(machine.rolling_jackpot(), 12);
}

#[test]
fn play_draws_from_the_pool_and_updates_the_jackpot() {
    let mut machine = generate_gore_slots(0);
    let tokens = [GORE, MEAN, MAGNATHONK, SMUGBROW, SMILEYES, BLANK];
    for _ in 0..500 {
        let before = machine.rolling_jackpot();
        let result = machine.play();
        assert_eq!(result.symbols.len(), 5);
        let ranks: Vec<usize> = result
            .symbols
            .iter()
            .map(|t| tokens.iter().position(|k| k == t).unwrap())
            .collect();
        assert!(ranks.windows(2).all(|w| w[0] <= w[1]));
        assert_eq!(result.current_jackpot_value, machine.rolling_jackpot());
        if ranks.iter().all(|r| *r == 0) {
            assert_eq!(result.payout as u64, before / JACKPOT_SCALE);
            assert_eq!(machine.rolling_jackpot(), 50_000_000_000);
        } else {
            assert_eq!(machine.rolling_jackpot(), before + 10_000_000);
        }
    }
}

#[test]
fn play_on_a_one_symbol_pool_always_hits() {
    let rules = vec![rule(PayPattern::FiveOfAKind(Mean), 40, true)];
    let mut machine = SlotMachine::new(10, rules, 1_000_000, vec![Mean]).ok().unwrap();
    for _ in 0..20 {
        let result = machine.play();
        assert_eq!(result.symbols, vec![MEAN; 5]);
        assert_eq!(result.payout, 40);
        assert_eq!(result.current_jackpot_value, 40 * JACKPOT_SCALE);
    }
}

#[test]
fn single_spin_settles_a_draw_from_the_pool() {
    let rules = gore_slots_paytable();
    let pool = vec![Blank, Gore];
    for _ in 0..200 {
        let (payout, next, symbols) = single_spin(&pool, &rules, 50_000_000_000, 10, 1_000_000, 500);
        assert_eq!(symbols.len(), 5);
        assert!(symbols.windows(2).all(|w| w[0] <= w[1]));
        if symbols.iter().all(|s| *s == Gore) {
            assert_eq!(payout, 50_000_000_000);
            assert_eq!(next, 50_000_000_000);
        } else {
            assert_eq!(payout, 0);
            assert_eq!(next, 50_010_000_000);
        }
    }
}

#[test]
fn pay_table_has_one_line_per_rule() {
    let machine = generate_gore_slots(0);
    let embed = machine.get_pay_table_embed();
    assert_eq!(embed.title, "Pay Table");
    assert_eq!(embed.color, 0x5b9e48);
    assert_eq!(embed.footer, "* Jackpot payouts are rolling, this value is the minimum.");
    assert_eq!(embed.fields.len(), 8);
    let names = [
        format!("{}*", GORE.repeat(5)),
        MEAN.repeat(5),
        MAGNATHONK.repeat(5),
        SMUGBROW.repeat(3),
        SMILEYES.repeat(3),
        SMILEYES.repeat(2),
        format!("3x any of [{}, {}, {}]", SMUGBROW, MAGNATHONK, MEAN),
        SMILEYES.to_string(),
    ];
    let values = ["500", "250", "250", "25", "25", "6", "6", "2"];
    for i in 0..8 {
        assert_eq!(embed.fields[i].name, names[i]);
        assert_eq!(embed.fields[i].value, values[i]);
        assert!(!embed.fields[i].inline);
        assert_eq!(embed.fields[i].name.ends_with('*'), machine.pay_table()[i].is_jackpot);
    }
}

#[test]
fn pay_rule_titles() {
    let machine = generate_gore_slots(0);
    let title = machine.get_pay_rule_title(&rule(PayPattern::MinCount(Blank, 0), 1, false));
    assert_eq!(title, "");
    let title =
        machine.get_pay_rule_title(&rule(PayPattern::MinCountAnyDistribution(vec![], 12), 1, false));
    assert_eq!(title, "12x any of []");
    let title = machine
        .get_pay_rule_title(&rule(PayPattern::MinCountAnyDistribution(vec![Blank], 255), 1, true));
    assert_eq!(title, format!("255x any of [{}]", BLANK));
}

#[test]
fn text_builders() {
    assert_eq!(decimal_string(0), "0");
    assert_eq!(decimal_string(7), "7");
    assert_eq!(decimal_string(10), "10");
    assert_eq!(decimal_string(500), "500");
    assert_eq!(decimal_string(1_234_567_890), "1234567890");
    assert_eq!(decimal_string(4_294_967_295), "4294967295");
    assert_eq!(decimal_string(u64::MAX), "18446744073709551615");
    assert_eq!(repeat_text("ab", 3), "ababab");
    assert_eq!(repeat_text("ab", 0), "");
    assert_eq!(join_text(&vec!["a".to_string(), "b".to_string(), "c".to_string()], ", "), "a, b, c");
    assert_eq!(join_text(&vec!["a".to_string()], ", "), "a");
    assert_eq!(join_text(&Vec::new(), ", "), "");
}
