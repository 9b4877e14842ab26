use std::collections::HashSet;

use slot_machine::jackpot::amount_string;
use slot_machine::ledger::unseen_positions;
use slot_machine::session::{Action, Event, PlayError, Stage};
use slot_machine::text::{decimal_places_string, padded_decimal_string};
use slot_machine::{build_result_embed, PlayResult};

fn run(events: &[Event], cost: u32) -> Stage {
    let mut stage = Stage::start();
    for event in events {
        stage = stage.advance(*event, cost);
    }
    stage
}

#[test]
fn a_request_runs_from_balance_to_payout() {
    let cost = 10;
    let mut stage = Stage::start();
    assert_eq!(stage.action(cost), Action::FetchBalance);
    stage = stage.advance(Event::Balance(1_000_000_000), cost);
    assert_eq!(stage, Stage::ChargingPlayer);
    assert_eq!(stage.action(cost), Action::DebitPlayer(10));
    stage = stage.advance(Event::Succeeded, cost);
    assert_eq!(stage, Stage::PayingHouse);
    assert_eq!(stage.action(cost), Action::CreditHouse(10));
    stage = stage.advance(Event::Succeeded, cost);
    assert_eq!(stage, Stage::Spinning);
    assert_eq!(stage.action(cost), Action::Play);
    stage = stage.advance(Event::Played(25), cost);
    assert_eq!(stage, Stage::PayingOut(25));
    assert_eq!(stage.action(cost), Action::CreditPlayer(25));
    stage = stage.advance(Event::Succeeded, cost);
    assert_eq!(stage, Stage::Settled(25));
    assert_eq!(stage.action(cost), Action::Stop);
}

#[test]
fn a_balance_below_the_cost_ends_the_request() {
    assert_eq!(
        run(&[Event::Balance(999_999_999)], 10),
        Stage::Failed(PlayError::InsufficientFunds)
    );
    assert_eq!(run(&[Event::Balance(0)], 10), Stage::Failed(PlayError::InsufficientFunds));
    assert_eq!(run(&[Event::Balance(1_000_000_000)], 10), Stage::ChargingPlayer);
    assert_eq!(run(&[Event::Balance(0)], 0), Stage::ChargingPlayer);
    assert_eq!(
        run(&[Event::Balance(u64::MAX)], u32::MAX),
        Stage::ChargingPlayer
    );
}

#[test]
fn a_ledger_failure_before_the_spin_is_reported_as_such() {
    let paid = Event::Balance(5_000_000_000);
    assert_eq!(run(&[Event::Refused], 10), Stage::Failed(PlayError::LedgerUnavailable));
    assert_eq!(run(&[paid, Event::Refused], 10), Stage::Failed(PlayError::LedgerUnavailable));
    assert_eq!(
        run(&[paid, Event::Succeeded, Event::Refused], 10),
        Stage::Failed(PlayError::LedgerUnavailable)
    );
}

#[test]
fn a_failed_payout_is_reported_apart() {
    let paid = Event::Balance(5_000_000_000);
    assert_eq!(
        run(&[paid, Event::Succeeded, Event::Succeeded, Event::Played(6), Event::Refused], 10),
        Stage::Failed(PlayError::PayoutDeliveryFailed)
    );
}

#[test]
fn unexpected_events_change_nothing() {
    assert_eq!(run(&[Event::Succeeded], 10), Stage::CheckingBalance);
    assert_eq!(run(&[Event::Played(3)], 10), Stage::CheckingBalance);
    let paid = Event::Balance(5_000_000_000);
    assert_eq!(run(&[paid, Event::Played(3)], 10), Stage::ChargingPlayer);
    assert_eq!(run(&[paid, paid], 10), Stage::ChargingPlayer);
    assert_eq!(
        run(&[paid, Event::Succeeded, Event::Succeeded, Event::Succeeded], 10),
        Stage::Spinning
    );
    assert_eq!(
        run(&[paid, Event::Succeeded, Event::Succeeded, Event::Refused], 10),
        Stage::Spinning
    );
}

#[test]
fn ended_requests_stay_ended() {
    let events = [Event::Balance(u64::MAX), Event::Succeeded, Event::Refused, Event::Played(1)];
    for stage in [Stage::Settled(4), Stage::Failed(PlayError::InsufficientFunds)] {
        for event in events.iter() {
            assert_eq!(stage.advance(*event, 10), stage);
        }
        assert_eq!(stage.action(10), Action::Stop);
    }
}

#[test]
fn play_error_messages() {
    assert_eq!(
        PlayError::InsufficientFunds.message(),
        "You don't have enough libcoin to play the slot machine!"
    );
    assert_eq!(
        PlayError::LedgerUnavailable.message(),
        "Sorry, looks like I'm having trouble contacting the bank."
    );
    assert_eq!(
        PlayError::PayoutDeliveryFailed.message(),
        "Well this is embarassing. I wanted to give you your winnings but it looks like I'm having trouble contacting the bank."
    );
}

#[test]
fn amounts_are_written_with_the_places_they_need() {
    assert_eq!(amount_string(50_010_000_000), "500.1");
    assert_eq!(amount_string(50_020_000_000), "500.2");
    assert_eq!(amount_string(50_000_000_000), "500");
    assert_eq!(amount_string(0), "0");
    assert_eq!(amount_string(1), "0.00000001");
    assert_eq!(amount_string(123_456_789), "1.23456789");
    assert_eq!(amount_string(100_000_010), "1.0000001");
    assert_eq!(amount_string(5_000_000), "0.05");
    assert_eq!(amount_string(u64::MAX), "184467440737.09551615");
}

#[test]
fn amounts_are_written_as_the_nearest_float_is() {
    for amount in [50_010_000_000u64, 50_020_000_000, 50_000_000_000, 123_456_789, 5_000_000, 1] {
        let float = amount as f64 / 100_000_000.0;
        assert_eq!(amount_string(amount), format!("{}", float));
    }
}

#[test]
fn padded_and_trimmed_digits() {
    assert_eq!(padded_decimal_string(42, 5), "00042");
    assert_eq!(padded_decimal_string(12345, 3), "345");
    assert_eq!(padded_decimal_string(7, 0), "");
    assert_eq!(decimal_places_string(10_000_000, 8), "1");
    assert_eq!(decimal_places_string(0, 8), "");
    assert_eq!(decimal_places_string(1, 8), "00000001");
    assert_eq!(decimal_places_string(12_300_000, 8), "123");
}

fn result(payout: u32, jackpot: u64) -> PlayResult {
    PlayResult {
        symbols: vec!["<a>".to_string(), "<b>".to_string(), "<c>".to_string()],
        payout,
        current_jackpot_value: jackpot,
    }
}

#[test]
fn result_of_a_lost_play() {
    let embed = build_result_embed(&result(0, 50_010_000_000));
    assert_eq!(embed.title, "🎰 Slot Machine Results");
    assert_eq!(embed.color, 0x5b9e48);
    assert_eq!(embed.footer, "Better luck next time!");
    assert_eq!(embed.fields.len(), 2);
    assert_eq!(embed.fields[0].name, "Spin Result");
    assert_eq!(embed.fields[0].value, "<a><b><c>");
    assert!(!embed.fields[0].inline);
    assert_eq!(embed.fields[1].name, "Payout");
    assert_eq!(embed.fields[1].value, "0");
    assert!(embed.fields[1].inline);
}

#[test]
fn result_of_a_smaller_win() {
    let embed = build_result_embed(&result(25, 50_010_000_000));
    assert_eq!(
        embed.footer,
        "You won! Maybe next time you'll hit the jackpot!\nCurrent Jackpot:500.1"
    );
    assert_eq!(embed.fields[1].value, "25");
    let embed = build_result_embed(&result(499, 50_000_000_000));
    assert_eq!(
        embed.footer,
        "You won! Maybe next time you'll hit the jackpot!\nCurrent Jackpot:500"
    );
}

#[test]
fn result_of_a_jackpot() {
    let embed = build_result_embed(&result(500, 50_000_000_000));
    assert_eq!(embed.footer, "🎉 Jackpot! 🎉");
    assert_eq!(embed.fields[1].value, "500");
    let embed = build_result_embed(&result(612, 50_000_000_000));
    assert_eq!(embed.footer, "🎉 Jackpot! 🎉");
}

#[test]
fn pages_are_taken_in_without_repeats() {
    let mut seen: HashSet<u64> = HashSet::new();
    assert_eq!(unseen_positions(&mut seen, &[7, 8, 7, 9]), vec![0, 1, 3]);
    assert_eq!(seen.len(), 3);
    assert_eq!(unseen_positions(&mut seen, &[9, 10, 8, 11, 10]), vec![1, 3]);
    assert_eq!(seen.len(), 5);
    assert_eq!(unseen_positions(&mut seen, &[]), Vec::<usize>::new());
    assert_eq!(unseen_positions(&mut seen, &[7, 8, 9, 10, 11]), Vec::<usize>::new());
    assert!(seen.contains(&11));
}
