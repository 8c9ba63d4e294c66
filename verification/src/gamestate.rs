//! The states of the game.

use vstd::prelude::*;

verus! {

/// Where the game stands: which screen is up before play, and which step
/// of the round is on during play.
#[derive(Clone, Copy, Eq, PartialEq, Structural, Debug, Hash)]
pub enum GameState {
    InitialMenu,
    Help,
    HelpKeys,
    HelpSpells,
    HelpCombat,
    HelpRangedCombat,
    HelpUndead,
    HelpMounts,
    HelpVictory,
    PlayerNameMenu,
    PlayerNameMenuTransition,
    TurnMenu,
    TurnMenuExamineSpell,
    TurnMenuExamineOneSpell,
    TurnMenuSelectSpell,
    TurnMenuExamineBoard,
    TurnMenuTransition,
    CastSpellSetup,
    CastSpell,
    MoveSetup,
    MoveChoose,
    MoveMoving,
    AttackDo,
    RangedAttackChoose,
    RangedAttackDo,
    RoundEnd,
}

impl Default for GameState {
    fn default() -> (s: Self)
        ensures
            s == GameState::InitialMenu,
    {
        GameState::InitialMenu
    }
}

impl GameState {
    /// Whether the wizards are all entered and the rounds have begun.
    pub open spec fn in_play(self) -> bool {
        !(self is InitialMenu || self is Help || self is HelpKeys || self is HelpSpells
            || self is HelpCombat || self is HelpRangedCombat || self is HelpUndead
            || self is HelpMounts || self is HelpVictory || self is PlayerNameMenu
            || self is PlayerNameMenuTransition)
    }

    /// Whether no wizard is entered yet: the first screen and the help.
    pub open spec fn before_names(self) -> bool {
        !self.in_play() && !(self is PlayerNameMenu) && !(self is PlayerNameMenuTransition)
    }

    /// Whether the state belongs to the turn of one wizard.
    pub open spec fn has_player(self) -> bool {
        self.in_play() && !(self is CastSpellSetup || self is MoveSetup || self is RoundEnd)
    }
}

} // verus!
