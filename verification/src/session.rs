//! The course of one request to play, between the ledger and the machine.
//!
//! The machine never talks to the ledger. Whoever serves a request asks the
//! ledger and the machine in turn, and this module decides, from the stage
//! the request is at and from what came back, what is to be done next.

use vstd::prelude::*;
use crate::jackpot::JACKPOT_SCALE;

verus! {

/// Why a request to play did not run to its end.
#[derive(Debug, PartialEq, Eq, Structural, Clone, Copy)]
pub enum PlayError {
    /// The player's balance does not cover the cost of a play.
    InsufficientFunds,
    /// The ledger could not be reached, or refused, before the machine was
    /// played.
    LedgerUnavailable,
    /// The machine was played, and the payout could not be credited: the
    /// player is owed the payout.
    PayoutDeliveryFailed,
}

/// The stage that a request to play is at.
#[derive(Debug, PartialEq, Eq, Structural, Clone, Copy)]
pub enum Stage {
    /// The player's balance is being asked for.
    CheckingBalance,
    /// The cost of the play is being taken from the player.
    ChargingPlayer,
    /// The cost of the play is being credited to the house.
    PayingHouse,
    /// The play is paid for, and the machine is to be played.
    Spinning,
    /// The machine was played, and the payout is being credited.
    PayingOut(u32),
    /// The request ran to its end with this payout.
    Settled(u32),
    /// The request ended early.
    Failed(PlayError),
}

/// What came back from the ledger or the machine.
#[derive(Debug, PartialEq, Eq, Structural, Clone, Copy)]
pub enum Event {
    /// The player's balance, as an amount in hundred-millionths.
    Balance(u64),
    /// The ledger did what it was asked to do.
    Succeeded,
    /// The ledger could not be reached, or refused.
    Refused,
    /// The machine was played and pays this many currency units.
    Played(u32),
}

/// What is to be done at a stage.
#[derive(Debug, PartialEq, Eq, Structural, Clone, Copy)]
pub enum Action {
    /// Ask the ledger for the player's balance.
    FetchBalance,
    /// Take this many currency units from the player.
    DebitPlayer(u32),
    /// Credit this many currency units to the house.
    CreditHouse(u32),
    /// Play the machine once.
    Play,
    /// Credit this many currency units to the player.
    CreditPlayer(u32),
    /// Nothing is left to do.
    Stop,
}

impl Event {
    /// The event is a balance that covers the cost of a play.
    pub open spec fn covers(self, cost_per_play: u32) -> bool {
        match self {
            Event::Balance(balance) => balance >= cost_per_play * JACKPOT_SCALE,
            _ => false,
        }
    }

    /// The event is a balance that does not cover the cost of a play.
    pub open spec fn falls_short_of(self, cost_per_play: u32) -> bool {
        match self {
            Event::Balance(balance) => balance < cost_per_play * JACKPOT_SCALE,
            _ => false,
        }
    }
}

impl Stage {
    /// The request has ended, well or not.
    pub open spec fn is_final(self) -> bool {
        self is Settled || self is Failed
    }

    /// The stage that follows when `event` comes back at this stage. An event
    /// that the stage does not wait for changes nothing.
    pub open spec fn after(self, event: Event, cost_per_play: u32) -> Stage {
        match (self, event) {
            (Stage::CheckingBalance, Event::Balance(balance)) => if balance < cost_per_play
                * JACKPOT_SCALE {
                Stage::Failed(PlayError::InsufficientFunds)
            } else {
                Stage::ChargingPlayer
            },
            (Stage::CheckingBalance, Event::Refused) => Stage::Failed(PlayError::LedgerUnavailable),
            (Stage::ChargingPlayer, Event::Succeeded) => Stage::PayingHouse,
            (Stage::ChargingPlayer, Event::Refused) => Stage::Failed(PlayError::LedgerUnavailable),
            (Stage::PayingHouse, Event::Succeeded) => Stage::Spinning,
            (Stage::PayingHouse, Event::Refused) => Stage::Failed(PlayError::LedgerUnavailable),
            (Stage::Spinning, Event::Played(payout)) => Stage::PayingOut(payout),
            (Stage::PayingOut(payout), Event::Succeeded) => Stage::Settled(payout),
            (Stage::PayingOut(_), Event::Refused) => Stage::Failed(
                PlayError::PayoutDeliveryFailed,
            ),
            _ => self,
        }
    }

    /// What is to be done at this stage.
    pub open spec fn pending(self, cost_per_play: u32) -> Action {
        match self {
            Stage::CheckingBalance => Action::FetchBalance,
            Stage::ChargingPlayer => Action::DebitPlayer(cost_per_play),
            Stage::PayingHouse => Action::CreditHouse(cost_per_play),
            Stage::Spinning => Action::Play,
            Stage::PayingOut(payout) => Action::CreditPlayer(payout),
            Stage::Settled(_) => Action::Stop,
            Stage::Failed(_) => Action::Stop,
        }
    }

    /// The stage after a run of events, taken in their order.
    pub open spec fn after_all(self, events: Seq<Event>, cost_per_play: u32) -> Stage
        decreases events.len(),
    {
        if events.len() == 0 {
            self
        } else {
            self.after_all(events.drop_last(), cost_per_play).after(events.last(), cost_per_play)
        }
    }

    /// The stage that every request starts at.
    pub fn start() -> (stage: Stage)
        ensures
            stage == Stage::CheckingBalance,
    {
        Stage::CheckingBalance
    }

    /// Takes the request to its next stage.
    pub fn advance(self, event: Event, cost_per_play: u32) -> (next: Stage)
        ensures
            next == self.after(event, cost_per_play),
    {
        match self {
            Stage::CheckingBalance => match event {
                Event::Balance(balance) => {
                    let cost: u64 = cost_per_play as u64;
                    if balance < cost * JACKPOT_SCALE {
                        Stage::Failed(PlayError::InsufficientFunds)
                    } else {
                        Stage::ChargingPlayer
                    }
                },
                Event::Refused => Stage::Failed(PlayError::LedgerUnavailable),
                _ => self,
            },
            Stage::ChargingPlayer => match event {
                Event::Succeeded => Stage::PayingHouse,
                Event::Refused => Stage::Failed(PlayError::LedgerUnavailable),
                _ => self,
            },
            Stage::PayingHouse => match event {
                Event::Succeeded => Stage::Spinning,
                Event::Refused => Stage::Failed(PlayError::LedgerUnavailable),
                _ => self,
            },
            Stage::Spinning => match event {
                Event::Played(payout) => Stage::PayingOut(payout),
                _ => self,
            },
            Stage::PayingOut(payout) => match event {
                Event::Succeeded => Stage::Settled(payout),
                Event::Refused => Stage::Failed(PlayError::PayoutDeliveryFailed),
                _ => self,
            },
            Stage::Settled(_) => self,
            Stage::Failed(_) => self,
        }
    }

    /// Says what is to be done at this stage.
    pub fn action(self, cost_per_play: u32) -> (action: Action)
        ensures
            action == self.pending(cost_per_play),
            action == Action::Stop <==> self.is_final(),
    {
        match self {
            Stage::CheckingBalance => Action::FetchBalance,
            Stage::ChargingPlayer => Action::DebitPlayer(cost_per_play),
            Stage::PayingHouse => Action::CreditHouse(cost_per_play),
            Stage::Spinning => Action::Play,
            Stage::PayingOut(payout) => Action::CreditPlayer(payout),
            Stage::Settled(_) => Action::Stop,
            Stage::Failed(_) => Action::Stop,
        }
    }
}

impl PlayError {
    /// What the player is told.
    pub fn message(&self) -> (text: String)
        ensures
            text@ == match *self {
                PlayError::InsufficientFunds => "You don't have enough libcoin to play the slot machine!"@,
                PlayError::LedgerUnavailable => "Sorry, looks like I'm having trouble contacting the bank."@,
                PlayError::PayoutDeliveryFailed => "Well this is embarassing. I wanted to give you your winnings but it looks like I'm having trouble contacting the bank."@,
            },
    {
        match self {
            PlayError::InsufficientFunds => String::from_str(
                "You don't have enough libcoin to play the slot machine!",
            ),
            PlayError::LedgerUnavailable => String::from_str(
                "Sorry, looks like I'm having trouble contacting the bank.",
            ),
            PlayError::PayoutDeliveryFailed => String::from_str(
                "Well this is embarassing. I wanted to give you your winnings but it looks like I'm having trouble contacting the bank.",
            ),
        }
    }
}

/// A request that has ended stays as it is, whatever comes back.
pub proof fn lemma_final_stage_stays(stage: Stage, event: Event, cost_per_play: u32)
    requires
        stage.is_final(),
    ensures
        stage.after(event, cost_per_play) == stage,
{
}

/// The machine is played only for a player whose balance covered the cost,
/// and only after the player was charged and the house was paid: the three
/// events that lead from the start to the spin are a sufficient balance and
/// two successes of the ledger.
pub proof fn lemma_spin_is_paid_for(events: Seq<Event>, cost_per_play: u32)
    requires
        events.len() == 3,
    ensures
        Stage::CheckingBalance.after_all(events, cost_per_play) == Stage::Spinning <==> {
            &&& events[0].covers(cost_per_play)
            &&& events[1] == Event::Succeeded
            &&& events[2] == Event::Succeeded
        },
{
    reveal_with_fuel(Stage::after_all, 4);
    let two = events.drop_last();
    let one = two.drop_last();
    assert(one.drop_last().len() == 0);
    assert(one.last() == events[0]);
    assert(two.last() == events[1]);
}

/// A payout is reported as undelivered only when the machine was played and
/// the credit of the payout failed.
pub proof fn lemma_undelivered_payout(stage: Stage, event: Event, cost_per_play: u32)
    requires
        !stage.is_final(),
    ensures
        stage.after(event, cost_per_play) == Stage::Failed(PlayError::PayoutDeliveryFailed) <==> (
        stage is PayingOut && event == Event::Refused),
        stage.after(event, cost_per_play) == Stage::Failed(PlayError::InsufficientFunds) <==> (stage
            == Stage::CheckingBalance && event.falls_short_of(cost_per_play)),
{
}

/// A request is settled with exactly the payout that the machine gave.
pub proof fn lemma_settled_payout(stage: Stage, event: Event, cost_per_play: u32, payout: u32)
    requires
        !stage.is_final(),
    ensures
        stage.after(event, cost_per_play) == Stage::Settled(payout) <==> (stage == Stage::PayingOut(
            payout,
        ) && event == Event::Succeeded),
{
}

} // verus!
