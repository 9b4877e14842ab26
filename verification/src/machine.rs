//! The slot machine: its configuration, its rolling jackpot and one play.

use vstd::prelude::*;
use vstd::string::StringExecFns;
use crate::arrange::arranged;
use crate::draw::{draw_symbols, is_draw};
use crate::embed::{Embed, EmbedField};
use crate::error::MachineError;
use crate::jackpot::{
    JACKPOT_SCALE, amount_of_units, next_jackpot, settle_spin, spin_payout, units_of_amount,
    whole_units,
};
use crate::pattern::{PatternView, PayPattern, PayRule, find_jackpot_rule, jackpot_rule};
use crate::symbol::Symbol;
use crate::text::{decimal, decimal_string, join_text, joined, repeat_text, repeated};

verus! {

/// What one play gave: the display tokens of the five symbols in the fixed
/// order, the payout in whole currency units, and the jackpot amount after
/// the play.
#[derive(Debug)]
pub struct PlayResult {
    pub symbols: Vec<String>,
    pub payout: u32,
    pub current_jackpot_value: u64,
}

/// A slot machine. Only a play changes it, and a play changes nothing but
/// the rolling jackpot.
pub struct SlotMachine {
    cost_per_play: u32,
    pay_table: Vec<PayRule>,
    rolling_jackpot: u64,
    min_jackpot: u32,
    jackpot_growth_rate: u32,
    symbol_map: Vec<(Symbol, String)>,
    weighted_symbol_pool: Vec<Symbol>,
}

/// The display token that a machine is built with for each symbol.
pub open spec fn default_token(s: Symbol) -> Seq<char> {
    match s {
        Symbol::Gore => "<:gore:854587419391164457>"@,
        Symbol::Mean => "<:mean:1260290196541280288>"@,
        Symbol::Magnathonk => "<:magnathonk:928158272836472872>"@,
        Symbol::Smugbrow => "<:smugbrow:1013536644621664268>"@,
        Symbol::Smileyes => "<:smileyes:927806099661422613>"@,
        Symbol::Blank => "<:white:785272845890486293>"@,
    }
}

/// The token of the first entry at or after `start` that names `s`, and
/// `Unknown` where no entry does.
pub open spec fn token_from(map: Seq<(Symbol, String)>, s: Symbol, start: int) -> Seq<char>
    decreases map.len() - start,
{
    if start < 0 || start >= map.len() {
        "Unknown"@
    } else if map[start].0 == s {
        map[start].1@
    } else {
        token_from(map, s, start + 1)
    }
}

/// The tokens of a list of symbols, in its order.
pub open spec fn tokens_of(map: Seq<(Symbol, String)>, list: Seq<Symbol>) -> Seq<Seq<char>> {
    Seq::new(list.len(), |i: int| token_from(map, list[i], 0))
}

/// How a pattern is described: its symbol's token as often as the pattern
/// asks for it, or the number and the list of the tokens it counts across.
pub open spec fn rule_title(map: Seq<(Symbol, String)>, pattern: PatternView) -> Seq<char> {
    match pattern {
        PatternView::FiveOfAKind(s) => repeated(token_from(map, s, 0), 5),
        PatternView::ThreeOfAKind(s) => repeated(token_from(map, s, 0), 3),
        PatternView::MinCountAnyDistribution(list, n) => decimal(n as nat) + "x any of ["@ + joined(
            tokens_of(map, list),
            ", "@,
        ) + "]"@,
        PatternView::MinCount(s, n) => repeated(token_from(map, s, 0), n as nat),
    }
}

/// The mark that a jackpot rule carries behind its description.
pub open spec fn jackpot_marker(is_jackpot: bool) -> Seq<char> {
    if is_jackpot {
        "*"@
    } else {
        Seq::empty()
    }
}

impl SlotMachine {
    /// What one play costs, in whole currency units.
    pub closed spec fn cost(&self) -> u32 {
        self.cost_per_play
    }

    /// The pay table, in its order of precedence.
    pub closed spec fn rules(&self) -> Seq<PayRule> {
        self.pay_table@
    }

    /// The rolling jackpot, as an amount.
    pub closed spec fn jackpot(&self) -> u64 {
        self.rolling_jackpot
    }

    /// The whole currency units that the jackpot falls back to when won.
    pub closed spec fn floor(&self) -> u32 {
        self.min_jackpot
    }

    /// The growth rate, in hundred-millionths of the cost of a play.
    pub closed spec fn growth_rate(&self) -> u32 {
        self.jackpot_growth_rate
    }

    /// The pool that the reels are drawn from.
    pub closed spec fn pool(&self) -> Seq<Symbol> {
        self.weighted_symbol_pool@
    }

    /// The display tokens, as a list of symbol and token.
    pub closed spec fn symbol_tokens(&self) -> Seq<(Symbol, String)> {
        self.symbol_map@
    }

    /// The display token of a symbol.
    pub open spec fn token(&self, s: Symbol) -> Seq<char> {
        token_from(self.symbol_tokens(), s, 0)
    }

    /// A machine can be played: its pool is not empty, and its floor is the
    /// payout of the first jackpot rule of its pay table.
    pub open spec fn wf(&self) -> bool {
        &&& self.pool().len() > 0
        &&& jackpot_rule(self.rules()) is Some
        &&& self.floor() == self.rules()[jackpot_rule(self.rules())->Some_0].payout
    }

    /// Two machines differ in nothing but, maybe, the rolling jackpot.
    pub open spec fn same_setup(&self, other: &SlotMachine) -> bool {
        &&& self.cost() == other.cost()
        &&& self.rules() == other.rules()
        &&& self.floor() == other.floor()
        &&& self.growth_rate() == other.growth_rate()
        &&& self.pool() == other.pool()
        &&& self.symbol_tokens() == other.symbol_tokens()
    }

    /// `after` and `result` are what a play of this machine gives when the
    /// reels stop on `drawn`.
    pub open spec fn played(&self, drawn: Seq<Symbol>, after: &SlotMachine, result: PlayResult) -> bool {
        &&& after.same_setup(self)
        &&& after.jackpot() == next_jackpot(
            drawn,
            self.rules(),
            self.jackpot(),
            self.cost(),
            self.growth_rate(),
            self.floor(),
        )
        &&& result.payout == whole_units(spin_payout(drawn, self.rules(), self.jackpot()))
        &&& result.current_jackpot_value == after.jackpot()
        &&& result.symbols@.len() == drawn.len()
        &&& forall|i: int|
            0 <= i < drawn.len() ==> (#[trigger] result.symbols@[i])@ == self.token(
                arranged(drawn)[i],
            )
    }

    /// Puts a machine together.
    ///
    /// The jackpot starts at the payout of the first jackpot rule, which is
    /// also the floor that it falls back to. `jackpot_growth_rate` is given
    /// in hundred-millionths of the cost of a play. A pay table without a
    /// jackpot rule is rejected, and after that an empty pool.
    pub fn new(
        cost_per_play: u32,
        pay_table: Vec<PayRule>,
        jackpot_growth_rate: u32,
        weighted_symbol_pool: Vec<Symbol>,
    ) -> (result: Result<SlotMachine, MachineError>)
        ensures
            jackpot_rule(pay_table@) is None <==> result matches Err(MachineError::InvalidPayTable),
            (jackpot_rule(pay_table@) is Some && weighted_symbol_pool@.len() == 0) <==> result matches Err(
                MachineError::EmptyPool,
            ),
            (jackpot_rule(pay_table@) is Some && weighted_symbol_pool@.len() > 0)
                <==> result is Ok,
            result matches Ok(machine) ==> {
                &&& machine.wf()
                &&& machine.cost() == cost_per_play
                &&& machine.rules() == pay_table@
                &&& machine.growth_rate() == jackpot_growth_rate
                &&& machine.pool() == weighted_symbol_pool@
                &&& machine.floor() == pay_table@[jackpot_rule(pay_table@)->Some_0].payout
                &&& machine.jackpot() == machine.floor() as nat * JACKPOT_SCALE as nat
                &&& forall|s: Symbol| machine.token(s) == default_token(s)
            },
    {
        let min_jackpot: u32 = match find_jackpot_rule(pay_table.as_slice()) {
            Some(i) => pay_table[i].payout,
            None => {
                return Err(MachineError::InvalidPayTable);
            },
        };
        if weighted_symbol_pool.len() == 0 {
            return Err(MachineError::EmptyPool);
        }
        let mut symbol_map: Vec<(Symbol, String)> = Vec::new();
        symbol_map.push((Symbol::Gore, String::from_str("<:gore:854587419391164457>")));
        symbol_map.push((Symbol::Mean, String::from_str("<:mean:1260290196541280288>")));
        symbol_map.push((Symbol::Magnathonk, String::from_str("<:magnathonk:928158272836472872>")));
        symbol_map.push((Symbol::Smugbrow, String::from_str("<:smugbrow:1013536644621664268>")));
        symbol_map.push((Symbol::Smileyes, String::from_str("<:smileyes:927806099661422613>")));
        symbol_map.push((Symbol::Blank, String::from_str("<:white:785272845890486293>")));
        proof {
            reveal_with_fuel(token_from, 7);
            assert forall|s: Symbol| token_from(symbol_map@, s, 0) == default_token(s) by {}
        }
        Ok(
            SlotMachine {
                cost_per_play,
                pay_table,
                rolling_jackpot: amount_of_units(min_jackpot),
                min_jackpot,
                jackpot_growth_rate,
                symbol_map,
                weighted_symbol_pool,
            },
        )
    }

    /// The same machine with its rolling jackpot taken over from an earlier
    /// run. A carry-over of 0 stands for none, and leaves the jackpot as it
    /// is.
    pub fn with_carry_over(self, previous_rolling_jackpot: u64) -> (machine: SlotMachine)
        ensures
            machine.same_setup(&self),
            machine.jackpot() == if previous_rolling_jackpot == 0 {
                self.jackpot()
            } else {
                previous_rolling_jackpot
            },
            self.wf() ==> machine.wf(),
    {
        let mut machine = self;
        if previous_rolling_jackpot != 0 {
            machine.rolling_jackpot = previous_rolling_jackpot;
        }
        machine
    }

    /// What one play costs, in whole currency units.
    pub fn cost_per_play(&self) -> (cost: u32)
        ensures
            cost == self.cost(),
    {
        self.cost_per_play
    }

    /// The rolling jackpot, as an amount.
    pub fn rolling_jackpot(&self) -> (amount: u64)
        ensures
            amount == self.jackpot(),
    {
        self.rolling_jackpot
    }

    /// The whole currency units that the jackpot falls back to when won.
    pub fn min_jackpot(&self) -> (units: u32)
        ensures
            units == self.floor(),
    {
        self.min_jackpot
    }

    /// The growth rate, in hundred-millionths of the cost of a play.
    pub fn jackpot_growth_rate(&self) -> (rate: u32)
        ensures
            rate == self.growth_rate(),
    {
        self.jackpot_growth_rate
    }

    /// The pool that the reels are drawn from.
    pub fn weighted_symbol_pool(&self) -> (pool: &Vec<Symbol>)
        ensures
            pool@ == self.pool(),
    {
        &self.weighted_symbol_pool
    }

    /// The pay table, in its order of precedence.
    pub fn pay_table(&self) -> (table: &Vec<PayRule>)
        ensures
            table@ == self.rules(),
    {
        &self.pay_table
    }

    /// Tells whether the machine can be played.
    pub fn is_playable(&self) -> (ok: bool)
        ensures
            ok == self.wf(),
    {
        if self.weighted_symbol_pool.len() == 0 {
            return false;
        }
        match find_jackpot_rule(self.pay_table.as_slice()) {
            Some(i) => self.pay_table[i].payout == self.min_jackpot,
            None => false,
        }
    }

    /// The display token of a symbol; `Unknown` for a symbol that the
    /// machine has no token for.
    pub fn get_symbol_string(&self, symbol: Symbol) -> (text: String)
        ensures
            text@ == self.token(symbol),
    {
        let mut i: usize = 0;
        while i < self.symbol_map.len()
            invariant
                i <= self.symbol_map.len(),
                self.token(symbol) == token_from(self.symbol_map@, symbol, i as int),
            decreases self.symbol_map.len() - i,
        {
            if self.symbol_map[i].0 == symbol {
                return self.symbol_map[i].1.clone();
            }
            i = i + 1;
        }
        String::from_str("Unknown")
    }

    /// Plays once on the combination `drawn`, as if the reels had stopped on
    /// it: settles the spin, stores the new jackpot and reports the result.
    pub fn play_drawn(&mut self, drawn: &[Symbol]) -> (result: PlayResult)
        ensures
            old(self).played(drawn@, final(self), result),
            old(self).wf() ==> final(self).wf(),
    {
        let (payout, next_jackpot_value, arranged_symbols) = settle_spin(
            drawn,
            self.pay_table.as_slice(),
            self.rolling_jackpot,
            self.cost_per_play,
            self.jackpot_growth_rate,
            self.min_jackpot,
        );
        proof {
            crate::arrange::lemma_arranged(drawn@);
        }
        self.rolling_jackpot = next_jackpot_value;
        let mut display_symbols: Vec<String> = Vec::new();
        let mut i: usize = 0;
        while i < arranged_symbols.len()
            invariant
                i <= arranged_symbols.len(),
                display_symbols@.len() == i,
                self.symbol_tokens() == old(self).symbol_tokens(),
                forall|k: int|
                    0 <= k < i ==> (#[trigger] display_symbols@[k])@ == old(self).token(
                        arranged_symbols@[k],
                    ),
            decreases arranged_symbols.len() - i,
        {
            let token: String = self.get_symbol_string(arranged_symbols[i]);
            display_symbols.push(token);
            i = i + 1;
        }
        PlayResult {
            symbols: display_symbols,
            payout: units_of_amount(payout),
            current_jackpot_value: self.rolling_jackpot,
        }
    }

    /// Plays once: draws the reels from the pool, settles the spin, stores
    /// the new jackpot and reports the result.
    ///
    /// The reels are random, so the contract states what holds whichever
    /// combination came up: machine and result are those of
    /// [`SlotMachine::play_drawn`] on some combination that the pool can
    /// give.
    pub fn play(&mut self) -> (result: PlayResult)
        requires
            old(self).wf(),
        ensures
            final(self).wf(),
            exists|drawn: Seq<Symbol>|
                is_draw(old(self).pool(), drawn) && #[trigger] old(self).played(
                    drawn,
                    final(self),
                    result,
                ),
    {
        let drawn: Vec<Symbol> = draw_symbols(self.weighted_symbol_pool.as_slice());
        let result = self.play_drawn(drawn.as_slice());
        proof {
            assert(is_draw(old(self).pool(), drawn@) && old(self).played(drawn@, self, result));
        }
        result
    }
}

impl SlotMachine {
    /// Describes the pattern of a rule with the display tokens.
    pub fn get_pay_rule_title(&self, rule: &PayRule) -> (title: String)
        ensures
            title@ == rule_title(self.symbol_tokens(), rule@.pattern),
    {
        match &rule.pattern {
            PayPattern::FiveOfAKind(symbol) => {
                let token: String = self.get_symbol_string(*symbol);
                repeat_text(token.as_str(), 5)
            },
            PayPattern::ThreeOfAKind(symbol) => {
                let token: String = self.get_symbol_string(*symbol);
                repeat_text(token.as_str(), 3)
            },
            PayPattern::MinCountAnyDistribution(symbols, min_count) => {
                let mut tokens: Vec<String> = Vec::new();
                let mut i: usize = 0;
                while i < symbols.len()
                    invariant
                        i <= symbols.len(),
                        tokens@.len() == i,
                        forall|k: int|
                            0 <= k < i ==> (#[trigger] tokens@[k])@ == self.token(symbols@[k]),
                    decreases symbols.len() - i,
                {
                    let token: String = self.get_symbol_string(symbols[i]);
                    tokens.push(token);
                    i = i + 1;
                }
                let symbol_str: String = join_text(&tokens, ", ");
                proof {
                    assert(Seq::new(tokens@.len(), |k: int| tokens@[k]@) =~= tokens_of(
                        self.symbol_tokens(),
                        symbols@,
                    ));
                }
                let mut title: String = decimal_string(*min_count as u64);
                title.append("x any of [");
                title.append(symbol_str.as_str());
                title.append("]");
                title
            },
            PayPattern::MinCount(symbol, min_count) => {
                let token: String = self.get_symbol_string(*symbol);
                repeat_text(token.as_str(), *min_count as usize)
            },
        }
    }

    /// Renders the pay table: one line per rule, in the table's order. A
    /// line names the rule's pattern, marked with `*` exactly when the rule
    /// pays the jackpot, and gives the rule's payout as a decimal numeral.
    pub fn get_pay_table_embed(&self) -> (embed: Embed)
        ensures
            embed.title@ == "Pay Table"@,
            embed.color == 0x5b9e48,
            embed.footer@ == "* Jackpot payouts are rolling, this value is the minimum."@,
            embed.fields@.len() == self.rules().len(),
            forall|i: int|
                0 <= i < self.rules().len() ==> {
                    let field = #[trigger] embed.fields@[i];
                    let rule = self.rules()[i];
                    &&& field.name@ == rule_title(self.symbol_tokens(), rule@.pattern)
                        + jackpot_marker(rule.is_jackpot)
                    &&& field.value@ == decimal(rule.payout as nat)
                    &&& !field.inline
                },
    {
        let mut fields: Vec<EmbedField> = Vec::new();
        let mut i: usize = 0;
        while i < self.pay_table.len()
            invariant
                i <= self.pay_table.len(),
                fields@.len() == i,
                forall|k: int|
                    0 <= k < i ==> {
                        let field = #[trigger] fields@[k];
                        let rule = self.rules()[k];
                        &&& field.name@ == rule_title(self.symbol_tokens(), rule@.pattern)
                            + jackpot_marker(rule.is_jackpot)
                        &&& field.value@ == decimal(rule.payout as nat)
                        &&& !field.inline
                    },
            decreases self.pay_table.len() - i,
        {
            let rule: &PayRule = &self.pay_table[i];
            let mut name: String = self.get_pay_rule_title(rule);
            if rule.is_jackpot {
                name.append("*");
            }
            proof {
                assert(name@ =~= rule_title(self.symbol_tokens(), rule@.pattern) + jackpot_marker(
                    rule.is_jackpot,
                ));
            }
            let value: String = decimal_string(rule.payout as u64);
            fields.push(EmbedField { name, value, inline: false });
            i = i + 1;
        }
        Embed {
            title: String::from_str("Pay Table"),
            color: 0x5b9e48,
            footer: String::from_str("* Jackpot payouts are rolling, this value is the minimum."),
            fields,
        }
    }
}

} // verus!
