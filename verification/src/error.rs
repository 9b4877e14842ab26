//! Why a machine cannot be put together.

use vstd::prelude::*;

verus! {

/// A fault in the configuration of a machine. A machine that exists never
/// fails while it is played.
#[derive(Debug, PartialEq, Eq, Structural, Clone, Copy)]
pub enum MachineError {
    /// The pay table has no rule that pays the jackpot.
    InvalidPayTable,
    /// The weights add up to zero, so there is nothing to draw from.
    EmptyPool,
}

impl MachineError {
    /// A short description of the fault.
    pub fn message(&self) -> (text: String)
        ensures
            text@ == match *self {
                MachineError::InvalidPayTable => "pay table must contain at least one jackpot rule"@,
                MachineError::EmptyPool => "weighted symbol pool is empty"@,
            },
    {
        match self {
            MachineError::InvalidPayTable => String::from_str(
                "pay table must contain at least one jackpot rule",
            ),
            MachineError::EmptyPool => String::from_str("weighted symbol pool is empty"),
        }
    }
}

} // verus!
