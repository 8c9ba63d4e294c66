//! The game as a whole: the wizards, whose turn it is, the board, the
//! pieces, and what a step of the game reports to the screen.

use vstd::prelude::*;
use crate::board::{on_board, BoardKill, BoardMove, BoardPutEntity, GameBoard};
use crate::cursor::{Cursor, PositionCursorOnEntity};
use crate::display::StartExplosion;
use crate::entity::{Entity, Piece, World};
use crate::gamestate::GameState;
use crate::player::{CastFailed, Player};
use crate::spell::AllSpells;
use crate::vec::Vec2I;

verus! {

/// A move in progress: the piece, the square it set out from, what is left
/// of its allowance, and how much of it is spent.
#[derive(Debug, PartialEq, Eq, Structural, Clone, Copy)]
pub struct MovingComponent {
    pub entity: Entity,
    pub start_pos: Vec2I,
    pub movement_budget: u8,
    pub flying: bool,
    pub steps: u8,
}

/// A fight in progress: who attacks whom, and whether with a shot.
#[derive(Debug, PartialEq, Eq, Structural, Clone, Copy)]
pub struct AttackingComponent {
    pub attacker: Entity,
    pub attackee: Entity,
    pub ranged: bool,
}

/// A line for the bottom of the screen, before it is put into words.
#[derive(Debug, PartialEq, Eq, Structural, Clone, Copy)]
pub enum Message {
    OutOfRange,
    NotThere,
    CannotMoveToOccupiedSquare,
    NotEligibleToMove,
    /// It is the turn of the wizard with this number.
    PlayersTurn(u8),
    /// The wizard with this number and the spell that wizard has chosen.
    ChosenSpell(u8),
    MovementRange { movement: u8, flying: bool },
    RangedAttack { range: u8 },
    IllusionPrompt,
    PressZeroToExit,
    AnyKeyToExit,
    PressHForHelp,
    HelpPrompt,
    PressAnyKeyToContinue,
    /// The name of the piece and of the wizard it answers to.
    Describe(Entity),
}

/// What a step of the game reports.
#[derive(Debug, PartialEq, Eq, Structural, Clone, Copy)]
pub enum GameEvent {
    /// The bottom line changes to the message, or is cleared.
    Text(Option<Message>),
    Put(BoardPutEntity),
    Move(BoardMove),
    Kill(BoardKill),
    CursorOn(PositionCursorOnEntity),
    Explosion(StartExplosion),
    /// A spell was cast; it summoned the piece, if any.
    Cast(Option<Entity>),
    CastFailed(CastFailed),
}

/// What comes in from outside: a beat of the clock without any key, a key
/// that writes a character, the enter key, or the end of an explosion on
/// the screen.
#[derive(Debug, PartialEq, Eq, Structural, Clone, Copy)]
pub enum Input {
    Tick,
    Char(char),
    Enter,
    ExplosionFinished,
}

/// The wizard that is entered on the name screen, as far as it is known.
pub struct CapturePlayer {
    pub init: bool,
    pub name: Option<String>,
    pub computer_controlled: Option<bool>,
    pub character_icon: Option<u8>,
    pub color: Option<crate::display::Color>,
}

/// The whole game.
pub struct Game {
    pub players: u8,
    pub ai_level: u8,
    pub player_info: Vec<Player>,
    pub player_turn: u8,
    pub state: GameState,
    pub board: GameBoard,
    pub world: World,
    pub cursor: Cursor,
    pub allspells: AllSpells,
    pub moving: Option<MovingComponent>,
    pub attacking: Option<AttackingComponent>,
    pub ranged_attack: Option<Entity>,
    pub pick_illusion: bool,
    pub examined_spell: Option<usize>,
    pub capture: CapturePlayer,
    pub typed: Vec<char>,
}

impl Game {
    /// Every piece on the board lives in the arena.
    pub open spec fn pieces_alive(&self) -> bool {
        forall|e: Entity| #[trigger] self.board@.has(e) ==> self.world@.contains_key(e)
    }

    /// The parts fit together: the board and the arena are sound, every
    /// piece on the board lives, the cursor is on the grid, every book is
    /// sound, the count of wizards is the number of wizards once play has
    /// begun, the turn is that of one of them wherever the state belongs to
    /// a turn, and the state has the move, the fight or the shooter it is
    /// about.
    pub open spec fn wf(&self) -> bool {
        &&& self.board.wf()
        &&& self.world.wf()
        &&& self.pieces_alive()
        &&& self.cursor.wf()
        &&& self.allspells.wf()
        &&& self.player_info.len() <= u8::MAX
        &&& self.players == 0 || 2 <= self.players <= 8
        &&& self.state.before_names() ==> self.player_info.len() == 0
        &&& !self.state.in_play() ==> self.player_turn == 0
        &&& self.state is PlayerNameMenu ==> self.player_info.len() < self.players
        &&& self.state is PlayerNameMenuTransition ==> 0 < self.player_info.len() <= self.players
        &&& forall|i: int|
            0 <= i < self.player_info.len() ==> (#[trigger] self.player_info[i]).spells.wf()
        &&& self.state.in_play() ==> self.players == self.player_info.len()
        &&& self.state.in_play() ==> self.players >= 2
        &&& self.state.in_play() ==> self.player_turn <= self.players
        &&& self.state.has_player() ==> self.player_turn < self.players
        &&& (self.state is MoveMoving || self.state is AttackDo) ==> self.move_in_order()
        &&& (self.state is AttackDo || self.state is RangedAttackDo) ==> self.attacking is Some
        &&& self.state is RangedAttackChoose ==> self.shooter_in_order()
        &&& self.state is TurnMenuExamineOneSpell ==> self.examined_spell is Some
    }

    /// There is a move in progress, of a piece on the board, and what the
    /// piece has spent of its allowance and what is left of it add up to
    /// the allowance. So the steps of one move never cost more than the
    /// piece is allowed.
    pub open spec fn move_in_order(&self) -> bool {
        &&& self.moving matches Some(m)
        &&& self.board@.has(m.entity)
        &&& on_board(m.start_pos)
        &&& m.steps + m.movement_budget == self.world@[m.entity].moveable.movement
        &&& m.flying == self.world@[m.entity].moveable.flying
    }

    /// There is a piece that aims a shot: it stands on the board and can
    /// shoot.
    pub open spec fn shooter_in_order(&self) -> bool {
        &&& self.ranged_attack matches Some(shooter)
        &&& self.board@.has(shooter)
        &&& self.world@[shooter].ranged is Some
    }

    /// The wizard whose turn it is.
    pub open spec fn current(&self) -> Player {
        self.player_info[self.player_turn as int]
    }

    /// A game before anything is entered: no wizards, an empty board, and
    /// the first screen up.
    pub fn new(allspells: AllSpells) -> (g: Self)
        requires
            allspells.wf(),
        ensures
            g.wf(),
            g.state is InitialMenu,
            g.players == 0,
            g.ai_level == 0,
            g.player_turn == 0,
            g.player_info@ == Seq::<Player>::empty(),
            g.board@ == crate::board::BoardView::empty(),
            g.world@ == Map::<Entity, Piece>::empty(),
            g.world.room() == u32::MAX + 1,
            g.cursor == Cursor::spec_new(),
            g.allspells == allspells,
            g.moving is None,
            g.attacking is None,
            g.ranged_attack is None,
            !g.pick_illusion,
            g.examined_spell is None,
            !g.capture.init && g.capture.name is None && g.capture.computer_controlled is None
                && g.capture.character_icon is None && g.capture.color is None,
            g.typed@ == Seq::<char>::empty(),
    {
        Game {
            players: 0,
            ai_level: 0,
            player_info: Vec::new(),
            player_turn: 0,
            state: GameState::InitialMenu,
            board: GameBoard::new(),
            world: World::new(),
            cursor: Cursor::default(),
            allspells,
            moving: None,
            attacking: None,
            ranged_attack: None,
            pick_illusion: false,
            examined_spell: None,
            capture: CapturePlayer {
                init: false,
                name: None,
                computer_controlled: None,
                character_icon: None,
                color: None,
            },
            typed: Vec::new(),
        }
    }

    /// The wizard whose turn it is.
    pub fn get_player(&self) -> (p: &Player)
        requires
            self.player_turn < self.player_info.len(),
        ensures
            *p == self.current(),
    {
        &self.player_info[self.player_turn as usize]
    }

    /// The wizard whose turn it is, for writing. No other wizard changes.
    pub fn get_player_mut(&mut self) -> (p: &mut Player)
        requires
            old(self).player_turn < old(self).player_info.len(),
        ensures
            *p == old(self).current(),
            final(self).player_info@ == old(self).player_info@.update(
                old(self).player_turn as int,
                *final(p),
            ),
            final(self).players == old(self).players,
            final(self).ai_level == old(self).ai_level,
            final(self).player_turn == old(self).player_turn,
            final(self).state == old(self).state,
            final(self).board == old(self).board,
            final(self).world == old(self).world,
            final(self).cursor == old(self).cursor,
            final(self).allspells == old(self).allspells,
            final(self).moving == old(self).moving,
            final(self).attacking == old(self).attacking,
            final(self).ranged_attack == old(self).ranged_attack,
            final(self).pick_illusion == old(self).pick_illusion,
            final(self).examined_spell == old(self).examined_spell,
            final(self).capture == old(self).capture,
            final(self).typed == old(self).typed,
    {
        &mut self.player_info[self.player_turn as usize]
    }

    /// The wizard that `e` answers to: the one named on the piece, or the
    /// piece itself where none is named. `None` for a piece that does not
    /// live.
    pub open spec fn spec_owner_of(&self, e: Entity) -> Option<Entity> {
        if self.world@.contains_key(e) {
            match self.world@[e].belongs {
                Some(b) => Some(b.player_entity),
                None => Some(e),
            }
        } else {
            None
        }
    }

    pub fn owner_of(&self, e: Entity) -> (r: Option<Entity>)
        ensures
            r == self.spec_owner_of(e),
    {
        match self.world.get(e) {
            Some(piece) => match piece.belongs {
                Some(b) => Some(b.player_entity),
                None => Some(e),
            },
            None => None,
        }
    }

    /// Whether the piece answers to the wizard whose turn it is.
    pub open spec fn spec_is_friendly(&self, e: Entity) -> bool {
        self.current().handle is Some && self.spec_owner_of(e) == self.current().handle
    }

    pub fn is_friendly(&self, e: Entity) -> (r: bool)
        requires
            self.player_turn < self.player_info.len(),
        ensures
            r == self.spec_is_friendly(e),
    {
        match (self.get_player().handle, self.owner_of(e)) {
            (Some(h), Some(o)) => h == o,
            _ => false,
        }
    }
}

} // verus!
