//! What is shown to a player: the pay table and the result of a play, as a
//! heading, a colour, a footnote and a list of lines.

use vstd::prelude::*;
use vstd::string::StringExecFns;
use crate::jackpot::{amount_string, amount_text};
use crate::machine::PlayResult;
use crate::text::{decimal, decimal_string, join_text, joined};

verus! {

/// One line of a message: a name, a value, and whether the line may share
/// its row with others.
#[derive(Debug)]
pub struct EmbedField {
    pub name: String,
    pub value: String,
    pub inline: bool,
}

/// A message: a heading, a colour, a footnote and its lines.
#[derive(Debug)]
pub struct Embed {
    pub title: String,
    pub color: u32,
    pub footer: String,
    pub fields: Vec<EmbedField>,
}

/// The colour of every message of the machine.
pub const EMBED_COLOR: u32 = 0x5b9e48;

/// A payout from which a play is announced as a jackpot.
pub const JACKPOT_ANNOUNCED_FROM: u32 = 500;

/// The footnote under the result of a play: the jackpot is announced from a
/// payout of 500, a smaller win is told the jackpot that is left to win, and
/// a play that paid nothing is wished better luck.
pub open spec fn result_footer(payout: u32, jackpot: u64) -> Seq<char> {
    if payout >= JACKPOT_ANNOUNCED_FROM {
        "🎉 Jackpot! 🎉"@
    } else if payout > 0 {
        "You won! Maybe next time you'll hit the jackpot!\nCurrent Jackpot:"@ + amount_text(jackpot)
    } else {
        "Better luck next time!"@
    }
}

/// The display tokens of a result, one after another.
pub open spec fn result_symbols(symbols: Seq<String>) -> Seq<char> {
    joined(Seq::new(symbols.len(), |i: int| symbols[i]@), ""@)
}

/// Renders the result of a play: the symbols in a row, the payout, and a
/// footnote that depends on the payout.
pub fn build_result_embed(play_result: &PlayResult) -> (embed: Embed)
    ensures
        embed.title@ == "🎰 Slot Machine Results"@,
        embed.color == EMBED_COLOR,
        embed.footer@ == result_footer(play_result.payout, play_result.current_jackpot_value),
        embed.fields@.len() == 2,
        embed.fields@[0].name@ == "Spin Result"@,
        embed.fields@[0].value@ == result_symbols(play_result.symbols@),
        !embed.fields@[0].inline,
        embed.fields@[1].name@ == "Payout"@,
        embed.fields@[1].value@ == decimal(play_result.payout as nat),
        embed.fields@[1].inline,
{
    let symbols: String = join_text(&play_result.symbols, "");
    let footer_message: String = if play_result.payout >= JACKPOT_ANNOUNCED_FROM {
        String::from_str("🎉 Jackpot! 🎉")
    } else if play_result.payout > 0 {
        let mut message: String = String::from_str(
            "You won! Maybe next time you'll hit the jackpot!\nCurrent Jackpot:",
        );
        let jackpot: String = amount_string(play_result.current_jackpot_value);
        message.append(jackpot.as_str());
        message
    } else {
        String::from_str("Better luck next time!")
    };
    let mut fields: Vec<EmbedField> = Vec::new();
    fields.push(EmbedField { name: String::from_str("Spin Result"), value: symbols, inline: false });
    fields.push(
        EmbedField {
            name: String::from_str("Payout"),
            value: decimal_string(play_result.payout as u64),
            inline: true,
        },
    );
    Embed {
        title: String::from_str("🎰 Slot Machine Results"),
        color: EMBED_COLOR,
        footer: footer_message,
        fields,
    }
}

} // verus!
