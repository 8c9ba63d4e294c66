//! The casting part of a round: every wizard in turn casts the spell that
//! was chosen for it, if one was.

use vstd::prelude::*;
use crate::board::{on_board, BoardPutEntity};
use crate::cursor::{Cursor, PositionCursorOnEntity, CURSOR_SPELL};
use crate::entity::Entity;
use crate::game::{Game, GameEvent, Message};
use crate::gamestate::GameState;
use crate::player::{CastFailed, Player};
use crate::screen::board::{cursor_on_wizard, is_select, lemma_distance_on_board, position_cursor_on_wizard};
use crate::spell::{ASpell, SpellBox};
use crate::vec::Vec2I;

verus! {

/// The cursor on entering the casting of a wizard: the spell cursor; and
/// where the wizard has chosen a spell, on the wizard's piece and held back
/// until it is moved.
pub open spec fn casting_cursor(g: Game) -> Cursor {
    let shaped = Game { cursor: Cursor { cursor: CURSOR_SPELL, redraw: true, ..g.cursor }, ..g };
    if g.current().spells.chosen_spell is Some {
        Cursor { hide_till_moved: true, ..cursor_on_wizard(shaped) }
    } else {
        shaped.cursor
    }
}

/// Sets the screen up for the casting of the wizard whose turn it is: tells
/// who casts what and puts the cursor on the caster, where a spell is
/// chosen.
pub fn cast_spell_setup(g: &mut Game, events: &mut Vec<GameEvent>)
    requires
        old(g).wf(),
        old(g).player_turn < old(g).player_info.len(),
    ensures
        final(g).wf(),
        *final(g) == (Game { cursor: casting_cursor(*old(g)), ..*old(g) }),
        final(events)@ == old(events)@ + (if old(g).current().spells.chosen_spell is Some {
            match old(g).current().handle {
                Some(h) => seq![
                    GameEvent::Text(Some(Message::ChosenSpell(old(g).player_turn))),
                    GameEvent::CursorOn(PositionCursorOnEntity(h)),
                ],
                None => seq![GameEvent::Text(Some(Message::ChosenSpell(old(g).player_turn)))],
            }
        } else {
            Seq::<GameEvent>::empty()
        }),
{
    g.cursor.set_type(CURSOR_SPELL);
    if g.get_player().spells.chosen_spell.is_some() {
        events.push(GameEvent::Text(Some(Message::ChosenSpell(g.player_turn))));
        position_cursor_on_wizard(g, events);
        g.cursor.hide_till_moved();
    }
}

/// What the start of a casting turn does to the game. When every wizard
/// has had a turn, the movement follows, and the turn goes back to the
/// first wizard. Otherwise the wizard whose turn it is casts.
pub open spec fn casting_begun(pre: Game, post: Game, events: Seq<GameEvent>) -> bool {
    if pre.player_turn >= pre.players {
        &&& post == (Game { player_turn: 0, state: GameState::MoveSetup, ..pre })
        &&& events =~= Seq::<GameEvent>::empty()
    } else {
        &&& post == (Game { state: GameState::CastSpell, cursor: casting_cursor(pre), ..pre })
        &&& events =~= (if pre.current().spells.chosen_spell is Some {
            match pre.current().handle {
                Some(h) => seq![
                    GameEvent::Text(Some(Message::ChosenSpell(pre.player_turn))),
                    GameEvent::CursorOn(PositionCursorOnEntity(h)),
                ],
                None => seq![GameEvent::Text(Some(Message::ChosenSpell(pre.player_turn)))],
            }
        } else {
            Seq::<GameEvent>::empty()
        })
    }
}

/// Starts the casting of the next wizard, or goes on to the movement when
/// every wizard has had a turn.
pub fn spell_next(g: &mut Game) -> (events: Vec<GameEvent>)
    requires
        old(g).wf(),
        old(g).state is CastSpellSetup,
    ensures
        final(g).wf(),
        casting_begun(*old(g), *final(g), events@),
{
    let mut events: Vec<GameEvent> = Vec::new();
    if g.player_turn >= g.players {
        g.player_turn = 0;
        g.state = GameState::MoveSetup;
    } else {
        g.state = GameState::CastSpell;
        cast_spell_setup(g, &mut events);
    }
    events
}

/// Ends the casting of a wizard: the turn goes to the next.
pub fn cast_spell_finish(g: &mut Game)
    requires
        old(g).player_turn < u8::MAX,
    ensures
        *final(g) == (Game { player_turn: (old(g).player_turn + 1) as u8, ..*old(g) }),
{
    g.player_turn += 1;
}

/// What becomes of an input while a wizard casts.
#[derive(Debug, PartialEq, Eq, Structural, Clone, Copy)]
pub enum CastDecision {
    /// The wizard has nothing to cast, or no piece to cast from.
    Skip,
    /// The input means nothing here.
    Wait,
    /// The target lies further from the caster than the spell reaches.
    OutOfRange,
    /// The target square of a summons is taken.
    NotThere,
    /// The spell is cast from the first square at the second.
    Cast(Vec2I, Vec2I),
}

/// Whether the wizard whose turn it is can cast: a spell is chosen, and the
/// wizard's own piece stands on the board.
pub open spec fn can_cast(g: Game) -> bool {
    &&& g.current().spells.chosen_spell is Some
    &&& g.current().handle matches Some(h)
    &&& g.board@.has(h)
}

/// The square a key aims the chosen spell at: a spell without range is
/// cast on any key, at the caster's own square; a spell with a range is
/// cast on the select key, at the square the cursor points at.
pub open spec fn cast_target(g: Game, key: Option<char>) -> Option<Vec2I> {
    let from = g.board@.positions[g.current().handle.unwrap()];
    match key {
        Some(k) => if g.current().chosen().spec_cast_range() == 0 {
            Some(from)
        } else if is_select(k) {
            Some(g.cursor.pos())
        } else {
            None
        },
        None => None,
    }
}

/// What becomes of an input while a wizard casts. A wizard that cannot
/// cast is passed over, whatever the input. Of a target, the range is
/// tested first, and then, for a summons, whether the square is free.
pub open spec fn cast_decision(g: Game, key: Option<char>) -> CastDecision {
    if !can_cast(g) {
        CastDecision::Skip
    } else {
        let from = g.board@.positions[g.current().handle.unwrap()];
        let spell = g.current().chosen();
        match cast_target(g, key) {
            None => CastDecision::Wait,
            Some(to) => if to.spec_distance(from) > spell.spec_cast_range() {
                CastDecision::OutOfRange
            } else if spell is Summon && g.board@.top(to) is Some {
                CastDecision::NotThere
            } else {
                CastDecision::Cast(from, to)
            },
        }
    }
}

/// The square a key aims the chosen spell of the wizard whose turn it is
/// at, if it aims it anywhere.
pub fn cast_spell_keyboard(g: &Game, key: Option<char>) -> (target: Option<Vec2I>)
    requires
        g.wf(),
        g.state is CastSpell,
        can_cast(*g),
    ensures
        target == cast_target(*g, key),
{
    let player = g.get_player();
    let range = player.spells.get_chosen_spell().unwrap().cast_range();
    match key {
        Some(k) => if range == 0 {
            Some(g.board.get_entity_pos(player.handle.unwrap()))
        } else if k == 's' || k == 'S' {
            Some(g.cursor.get_pos_v())
        } else {
            None
        },
        None => None,
    }
}

/// Decides what becomes of an input while a wizard casts.
pub fn decide_cast(g: &Game, key: Option<char>) -> (d: CastDecision)
    requires
        g.wf(),
        g.state is CastSpell,
    ensures
        d == cast_decision(*g, key),
        d matches CastDecision::Cast(from, to) ==> on_board(from) && on_board(to),
{
    let player = g.get_player();
    let spell = match player.spells.get_chosen_spell() {
        Some(spell) => spell,
        None => {
            return CastDecision::Skip;
        },
    };
    let from = match player.handle {
        Some(h) => if g.board._has_entity(h) {
            g.board.get_entity_pos(h)
        } else {
            return CastDecision::Skip;
        },
        None => {
            return CastDecision::Skip;
        },
    };
    let range = spell.cast_range();
    let to = match cast_spell_keyboard(g, key) {
        Some(to) => to,
        None => {
            return CastDecision::Wait;
        },
    };
    proof {
        lemma_distance_on_board(to, from);
    }
    if to.distance(from) > range {
        return CastDecision::OutOfRange;
    }
    let summons = match spell {
        SpellBox::Summon(_) => true,
        _ => false,
    };
    if summons && g.board.has_entity_at(to) {
        return CastDecision::NotThere;
    }
    CastDecision::Cast(from, to)
}

/// The piece that the wizard whose turn it was has summoned with the last
/// cast, if the spell that was chosen before the cast is a summons.
pub open spec fn summoned_by_cast(pre: Game, post: Game) -> Option<Entity> {
    if pre.current().chosen() is Summon {
        Some(post.player_info[pre.player_turn as int].creations@.last())
    } else {
        None
    }
}

/// What a cast from `from` at `to` does to the game. The caster's book,
/// alignment and creations change as a cast changes them, the arena as the
/// spell changes it, a summoned piece stands on the target square and is
/// reported, and the turn goes to the next wizard.
pub open spec fn cast_done(
    pre: Game,
    post: Game,
    events: Seq<GameEvent>,
    from: Vec2I,
    to: Vec2I,
) -> bool {
    let turn = pre.player_turn as int;
    let caster = pre.current();
    let after = post.player_info[turn];
    let summoned = summoned_by_cast(pre, post);
    &&& post == (Game {
        state: GameState::CastSpellSetup,
        player_turn: (pre.player_turn + 1) as u8,
        player_info: post.player_info,
        world: post.world,
        board: post.board,
        ..pre
    })
    &&& post.player_info.len() == pre.player_info.len()
    &&& forall|i: int|
        0 <= i < pre.player_info.len() && i != turn ==> #[trigger] post.player_info[i]
            == pre.player_info[i]
    &&& after.same_wizard(&caster)
    &&& after.spells.spells@ =~= caster.spells.spells_after_cast()
    &&& after.spells.chosen_spell is None
    &&& !after.spells.illusion
    &&& after.law_chaos == caster.law_chaos_after_cast()
    &&& after.creations@ =~= (match summoned {
        Some(e) => caster.creations@.push(e),
        None => caster.creations@,
    })
    &&& summoned matches Some(e) ==> !pre.world@.contains_key(e)
    &&& post.world@ =~= caster.world_after_cast(pre.world@, summoned)
    &&& post.board@ =~= (match summoned {
        Some(e) => pre.board@.put(to, e),
        None => pre.board@,
    })
    &&& events =~= (match summoned {
        Some(e) => seq![
            GameEvent::Put(BoardPutEntity { entity: e, pos: to }),
            GameEvent::Cast(Some(e)),
        ],
        None => seq![GameEvent::Cast(None)],
    })
}

/// What a decision on an input does to the game while a wizard casts. A
/// wizard that is passed over gives the turn to the next. A target that is
/// turned down can be chosen anew.
pub open spec fn cast_as_decided(
    pre: Game,
    post: Game,
    events: Seq<GameEvent>,
    d: CastDecision,
) -> bool {
    match d {
        CastDecision::Skip => {
            &&& post == (Game {
                state: GameState::CastSpellSetup,
                player_turn: (pre.player_turn + 1) as u8,
                ..pre
            })
            &&& events =~= Seq::<GameEvent>::empty()
        },
        CastDecision::Wait => post == pre && events =~= Seq::<GameEvent>::empty(),
        CastDecision::OutOfRange => {
            &&& post == (Game { cursor: Cursor { hide_till_moved: true, ..pre.cursor }, ..pre })
            &&& events =~= seq![
                GameEvent::CastFailed(CastFailed::OutOfRange),
                GameEvent::Text(Some(Message::OutOfRange)),
            ]
        },
        CastDecision::NotThere => {
            &&& post == pre
            &&& events =~= seq![
                GameEvent::CastFailed(CastFailed::NotThere),
                GameEvent::Text(Some(Message::NotThere)),
            ]
        },
        CastDecision::Cast(from, to) => cast_done(pre, post, events, from, to),
    }
}

/// Reports how a cast ended: a cast that failed is told on the bottom
/// line, and a target out of range also holds the cursor back until it is
/// moved.
pub fn cast_spell_result(
    g: &mut Game,
    result: Result<Option<Entity>, CastFailed>,
    events: &mut Vec<GameEvent>,
)
    ensures
        *final(g) == (Game {
            cursor: if result == Err::<Option<Entity>, CastFailed>(CastFailed::OutOfRange) {
                Cursor { hide_till_moved: true, ..old(g).cursor }
            } else {
                old(g).cursor
            },
            ..*old(g)
        }),
        final(events)@ == old(events)@ + (match result {
            Ok(e) => seq![GameEvent::Cast(e)],
            Err(CastFailed::OutOfRange) => seq![
                GameEvent::CastFailed(CastFailed::OutOfRange),
                GameEvent::Text(Some(Message::OutOfRange)),
            ],
            Err(CastFailed::NotThere) => seq![
                GameEvent::CastFailed(CastFailed::NotThere),
                GameEvent::Text(Some(Message::NotThere)),
            ],
        }),
{
    match result {
        Ok(e) => {
            events.push(GameEvent::Cast(e));
        },
        Err(CastFailed::OutOfRange) => {
            events.push(GameEvent::CastFailed(CastFailed::OutOfRange));
            events.push(GameEvent::Text(Some(Message::OutOfRange)));
            g.cursor.hide_till_moved();
        },
        Err(CastFailed::NotThere) => {
            events.push(GameEvent::CastFailed(CastFailed::NotThere));
            events.push(GameEvent::Text(Some(Message::NotThere)));
        },
    }
}

/// The casting of a wizard: takes one input, decides on it, and does what
/// was decided.
pub fn cast_spell(g: &mut Game, key: Option<char>) -> (events: Vec<GameEvent>)
    requires
        old(g).wf(),
        old(g).state is CastSpell,
        old(g).world.has_room(),
    ensures
        final(g).wf(),
        final(g).world.room() >= old(g).world.room() - 1,
        cast_as_decided(*old(g), *final(g), events@, cast_decision(*old(g), key)),
{
    let mut events: Vec<GameEvent> = Vec::new();
    match decide_cast(g, key) {
        CastDecision::Skip => {
            cast_spell_finish(g);
            g.state = GameState::CastSpellSetup;
        },
        CastDecision::Wait => {},
        CastDecision::OutOfRange => {
            cast_spell_result(g, Err(CastFailed::OutOfRange), &mut events);
        },
        CastDecision::NotThere => {
            cast_spell_result(g, Err(CastFailed::NotThere), &mut events);
        },
        CastDecision::Cast(from, to) => {
            proof {
                lemma_distance_on_board(to, from);
            }
            let res = g.player_info[g.player_turn as usize].cast(from, to, &mut g.world);
            assert forall|e: Entity| #[trigger]
                old(g).world@.contains_key(e) implies g.world@.contains_key(e) by {}
            match res {
                Ok(Some(entity)) => {
                    g.board.put_entity(to, entity);
                    events.push(GameEvent::Put(BoardPutEntity { entity, pos: to }));
                },
                _ => {},
            }
            assert forall|e: Entity| #[trigger] g.board@.has(e) implies g.world@.contains_key(e) by {
                if old(g).board@.has(e) {
                    assert(old(g).world@.contains_key(e));
                }
            }
            cast_spell_result(g, res, &mut events);
            cast_spell_finish(g);
            g.state = GameState::CastSpellSetup;
        },
    }
    events
}

} // verus!
