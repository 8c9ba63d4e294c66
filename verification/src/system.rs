//! The attributes a piece can carry.

use vstd::prelude::*;
use crate::entity::Entity;

verus! {

/// The name a piece is shown under.
pub struct Named {
    pub name: String,
}

/// The wizard that controls a piece. A piece without it answers to nobody.
#[derive(Debug, PartialEq, Eq, Structural, Clone, Copy)]
pub struct BelongsToPlayer {
    pub player_entity: Entity,
}

/// Marks what is drawn on the board.
#[derive(Debug, PartialEq, Eq, Structural, Clone, Copy)]
pub struct BoardEntity;

/// Melee strength of an attacker.
#[derive(Debug, PartialEq, Eq, Structural, Clone, Copy)]
pub struct CanAttack {
    pub combat: u8,
}

/// Melee resistance of a defender. A piece without it cannot be attacked.
#[derive(Debug, PartialEq, Eq, Structural, Clone, Copy)]
pub struct CanDefend {
    pub defence: u8,
}

/// Strength and reach of a shot fired after moving.
#[derive(Debug, PartialEq, Eq, Structural, Clone, Copy)]
pub struct RangedCombat {
    pub ranged_combat: u8,
    pub range: u8,
}

impl Clone for Named {
    fn clone(&self) -> (r: Self)
        ensures
            r == *self,
    {
        Named { name: self.name.clone() }
    }
}

} // verus!
