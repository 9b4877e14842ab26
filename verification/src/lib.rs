//! A weighted-reel slot machine with a rolling jackpot.
//!
//! The reels are sampled from a weighted pool of symbols, the drawn
//! combination is matched against an ordered pay table, and the rolling
//! jackpot either grows by a fixed increment or falls back to its floor.
//! Jackpot amounts are kept as whole numbers of hundred-millionths of a
//! currency unit, so every stored amount has exactly eight decimal places.

pub mod symbol;
pub mod error;
pub mod pool;
pub mod arrange;
pub mod pattern;
pub mod text;
pub mod draw;
pub mod jackpot;
pub mod machine;
pub mod embed;
pub mod gore_slot_machine;
pub mod session;
pub mod ledger;

pub use error::MachineError;
pub use gore_slot_machine::{generate_gore_slots, generate_gore_slots_weights, gore_slots_paytable};
pub use embed::{build_result_embed, Embed, EmbedField};
pub use machine::{PlayResult, SlotMachine};
pub use pattern::{check_pay_pattern_match, PayPattern, PayRule};
pub use pool::generate_weighted_symbol_pool;
pub use symbol::Symbol;
