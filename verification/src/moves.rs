//! What a move is made of. How a move is chosen and what damage it deals is
//! up to the battle loop.

use crate::typing::Types;
use vstd::prelude::*;

verus! {

/// Which pair of stats a move pits against each other, if any.
#[derive(Debug, Clone, Copy, PartialEq, Eq, Hash, Structural)]
pub enum MoveTypes {
    /// Attack against defense.
    Physical,
    /// Special attack against special defense.
    Special,
    /// No damage: the move inflicts a status or changes a stat.
    Status,
}

/// A move a creature can use.
pub struct Move {
    /// Base power, in sixteenths.
    pub power: u32,
    /// How many times the move can still be used.
    pub pp: u8,
    pub chart_type: Types,
    pub phys_spec_stat: MoveTypes,
    pub name: String,
    pub description: String,
}

} // verus!
