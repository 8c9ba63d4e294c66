//! The movement part of a round: choosing a piece, moving it, and the
//! fights and shots that come of it.

use vstd::prelude::*;
use crate::board::{on_board, BoardKill, BoardMove};
use crate::chance::random_in_range;
use crate::cursor::{
    Cursor, CursorMovedEvent, PositionCursorOnEntity, CURSOR_BOX, CURSOR_FLY, CURSOR_TARGET,
};
use crate::display::StartExplosion;
use crate::entity::{Entity, Piece};
use crate::game::{AttackingComponent, Game, GameEvent, Message, MovingComponent};
use crate::gamestate::GameState;
use crate::player::Player;
use crate::vec::Vec2I;

verus! {

/// Whether the key selects what the cursor points at.
pub open spec fn is_select(key: char) -> bool {
    key == 's' || key == 'S'
}

/// Whether the key calls off what is in progress.
pub open spec fn is_cancel(key: char) -> bool {
    key == 'k' || key == 'K'
}

/// Whether the key ends the turn, or leaves a screen.
pub open spec fn is_end_turn(key: char) -> bool {
    key == '0'
}

/// The cursor as a box that shows: the cursor for choosing a piece.
pub open spec fn choosing_cursor(c: Cursor) -> Cursor {
    Cursor { cursor: CURSOR_BOX, visible: true, redraw: true, ..c }
}

/// The cursor on entering the choice of a piece.
pub fn move_choose_setup(g: &mut Game)
    ensures
        *final(g) == (Game { cursor: choosing_cursor(old(g).cursor), ..*old(g) }),
{
    g.cursor.set_visible();
    g.cursor.set_type(CURSOR_BOX);
}

/// The cursor after it was put on the piece of the wizard whose turn it
/// is, where that piece stands on the board.
pub open spec fn cursor_on_wizard(g: Game) -> Cursor {
    match g.current().handle {
        Some(h) => if g.board@.has(h) {
            Cursor {
                x: g.board@.positions[h].x,
                y: g.board@.positions[h].y,
                redraw: true,
                ..g.cursor
            }
        } else {
            g.cursor
        },
        None => g.cursor,
    }
}

/// Puts the cursor on the piece of the wizard whose turn it is and reports
/// that, where the wizard has a piece; the cursor moves only where that
/// piece stands on the board.
pub fn position_cursor_on_wizard(g: &mut Game, events: &mut Vec<GameEvent>)
    requires
        old(g).wf(),
        old(g).player_turn < old(g).player_info.len(),
    ensures
        *final(g) == (Game { cursor: cursor_on_wizard(*old(g)), ..*old(g) }),
        final(g).wf(),
        final(events)@ == (match old(g).current().handle {
            Some(h) => old(events)@.push(GameEvent::CursorOn(PositionCursorOnEntity(h))),
            None => old(events)@,
        }),
{
    match g.get_player().handle {
        Some(h) => {
            events.push(GameEvent::CursorOn(PositionCursorOnEntity(h)));
            if g.board._has_entity(h) {
                let pos = g.board.get_entity_pos(h);
                g.cursor.set_pos(pos);
            }
        },
        None => {},
    }
}

/// What the start of a movement turn does to the game. Every piece may
/// move again. When every wizard has had a turn, the round ends: the turn
/// goes back to the first wizard and the cursor goes out. Otherwise the
/// wizard whose turn it is chooses a piece, with the cursor on the
/// wizard's own piece.
pub open spec fn movement_begun(pre: Game, post: Game, events: Seq<GameEvent>) -> bool {
    &&& post.world@ =~= pre.world@.map_values(|p: Piece| p.rested())
    &&& if pre.player_turn >= pre.players {
        &&& post == (Game {
            player_turn: 0,
            state: GameState::RoundEnd,
            cursor: Cursor { visible: false, redraw: true, ..pre.cursor },
            world: post.world,
            ..pre
        })
        &&& events =~= seq![GameEvent::Text(None)]
    } else {
        &&& post == (Game {
            state: GameState::MoveChoose,
            cursor: choosing_cursor(cursor_on_wizard(pre)),
            world: post.world,
            ..pre
        })
        &&& events =~= (match pre.current().handle {
            Some(h) => seq![
                GameEvent::CursorOn(PositionCursorOnEntity(h)),
                GameEvent::Text(Some(Message::PlayersTurn(pre.player_turn))),
            ],
            None => seq![GameEvent::Text(Some(Message::PlayersTurn(pre.player_turn)))],
        })
    }
}

/// Starts the movement turn of the next wizard, or ends the round when
/// every wizard has had a turn.
pub fn move_next(g: &mut Game) -> (events: Vec<GameEvent>)
    requires
        old(g).wf(),
        old(g).state is MoveSetup,
    ensures
        final(g).wf(),
        final(g).world.room() == old(g).world.room(),
        movement_begun(*old(g), *final(g), events@),
{
    let mut events: Vec<GameEvent> = Vec::new();
    g.world.clear_moved();
    if g.player_turn >= g.players {
        events.push(GameEvent::Text(None));
        g.player_turn = 0;
        g.cursor.set_invisible();
        g.state = GameState::RoundEnd;
    } else {
        position_cursor_on_wizard(g, &mut events);
        events.push(GameEvent::Text(Some(Message::PlayersTurn(g.player_turn))));
        g.state = GameState::MoveChoose;
        move_choose_setup(g);
    }
    events
}

/// The cursor while a piece is moved: a flying piece gets the flying
/// cursor, held back until it is moved; a walking piece gets none.
pub open spec fn moving_cursor(c: Cursor, flying: bool) -> Cursor {
    if flying {
        Cursor { cursor: CURSOR_FLY, redraw: true, hide_till_moved: true, ..c }
    } else {
        Cursor { visible: false, redraw: true, ..c }
    }
}

/// The piece under the cursor that the wizard whose turn it is may move
/// now: the top piece of the square, if it answers to that wizard and has
/// not moved yet.
pub open spec fn eligible_at_cursor(g: Game) -> Option<Entity> {
    match g.board@.top(g.cursor.pos()) {
        Some(e) => if g.spec_is_friendly(e) && !g.world@[e].has_moved {
            Some(e)
        } else {
            None
        },
        None => None,
    }
}

/// What a key does to the game while a piece is chosen.
///
/// The end-turn key hands the turn to the next wizard. The select key on a
/// piece that the wizard may move now marks the piece as moved and starts
/// its move with the whole allowance; on any other piece it is refused;
/// on an empty square, and for any other key, nothing happens.
pub open spec fn piece_chosen(pre: Game, post: Game, events: Seq<GameEvent>, key: char) -> bool {
    if is_end_turn(key) {
        &&& post == (Game {
            player_turn: (pre.player_turn + 1) as u8,
            state: GameState::MoveSetup,
            ..pre
        })
        &&& events =~= Seq::<GameEvent>::empty()
    } else if is_select(key) {
        match eligible_at_cursor(pre) {
            Some(e) => {
                let moveable = pre.world@[e].moveable;
                &&& post == (Game {
                    state: GameState::MoveMoving,
                    moving: Some(
                        MovingComponent {
                            entity: e,
                            start_pos: pre.cursor.pos(),
                            movement_budget: moveable.movement,
                            flying: moveable.flying,
                            steps: 0,
                        },
                    ),
                    cursor: moving_cursor(pre.cursor, moveable.flying),
                    world: post.world,
                    ..pre
                })
                &&& post.world@ =~= pre.world@.insert(e, Piece { has_moved: true, ..pre.world@[e] })
                &&& events =~= seq![
                    GameEvent::Text(
                        Some(
                            Message::MovementRange {
                                movement: moveable.movement,
                                flying: moveable.flying,
                            },
                        ),
                    ),
                ]
            },
            None => {
                &&& post == pre
                &&& events =~= (if pre.board@.top(pre.cursor.pos()) is Some {
                    seq![GameEvent::Text(Some(Message::NotEligibleToMove))]
                } else {
                    Seq::<GameEvent>::empty()
                })
            },
        }
    } else {
        post == pre && events =~= Seq::<GameEvent>::empty()
    }
}

/// The choice of a piece to move: takes one key.
pub fn move_choose_keyboard(g: &mut Game, key: char) -> (events: Vec<GameEvent>)
    requires
        old(g).wf(),
        old(g).state is MoveChoose,
    ensures
        final(g).wf(),
        final(g).world.room() == old(g).world.room(),
        piece_chosen(*old(g), *final(g), events@, key),
{
    let mut events: Vec<GameEvent> = Vec::new();
    if key == '0' {
        g.player_turn += 1;
        g.state = GameState::MoveSetup;
    } else if key == 's' || key == 'S' {
        let pos = g.cursor.get_pos_v();
        if g.board.has_entity_at(pos) {
            let e = g.board.get_entity(pos).unwrap();
            assert(g.board@.has(e)) by {
                assert(g.board@.stacks[pos][g.board@.stacks[pos].len() - 1] == e);
            }
            let friendly = g.is_friendly(e);
            let piece = g.world.get(e).unwrap();
            if friendly && !piece.has_moved {
                let moveable = piece.moveable;
                g.world.get_mut(e).has_moved = true;
                events.push(
                    GameEvent::Text(
                        Some(
                            Message::MovementRange {
                                movement: moveable.movement,
                                flying: moveable.flying,
                            },
                        ),
                    ),
                );
                if moveable.flying {
                    g.cursor.set_type(CURSOR_FLY);
                    g.cursor.hide_till_moved();
                } else {
                    g.cursor.set_invisible();
                }
                g.moving = Some(
                    MovingComponent {
                        entity: e,
                        start_pos: pos,
                        movement_budget: moveable.movement,
                        flying: moveable.flying,
                        steps: 0,
                    },
                );
                g.state = GameState::MoveMoving;
            } else {
                events.push(GameEvent::Text(Some(Message::NotEligibleToMove)));
            }
        }
    }
    events
}

/// What becomes of an input while a piece is moved.
#[derive(Debug, PartialEq, Eq, Structural, Clone, Copy)]
pub enum MoveDecision {
    /// The input means nothing here.
    Ignore,
    /// The move is called off.
    Cancel,
    /// The destination costs more than is left of the allowance: for a
    /// flying piece any destination, for a walking piece an empty square.
    OutOfRange,
    /// The destination holds a piece of the same wizard.
    Blocked,
    /// The destination holds a piece of another, which is attacked.
    Attack(Entity),
    /// The piece goes to the square, for the given cost.
    Step { to: Vec2I, cost: u8 },
}

/// What becomes of an attempt to go from `from` to `to`. A flying piece is
/// out of range where the distance is more than its allowance, whatever
/// the destination holds. Otherwise a destination that holds a piece of
/// the same wizard is blocked, and one that holds a piece of another is
/// attacked, even by a walking piece with nothing left of its allowance.
/// An empty square is out of range where the distance is more than what is
/// left of the allowance, and else a step at the cost of the distance.
pub open spec fn destination_decision(g: Game, from: Vec2I, to: Vec2I) -> MoveDecision {
    let m = g.moving.unwrap();
    let cost = to.spec_distance(from);
    if m.flying && cost > m.movement_budget {
        MoveDecision::OutOfRange
    } else {
        match g.board@.top(to) {
            Some(other) => if g.spec_is_friendly(other) {
                MoveDecision::Blocked
            } else {
                MoveDecision::Attack(other)
            },
            None => if cost > m.movement_budget {
                MoveDecision::OutOfRange
            } else {
                MoveDecision::Step { to, cost: cost as u8 }
            },
        }
    }
}

/// What becomes of an input while a piece is moved. The cancel key calls
/// the move off. A flying piece jumps on the select key, from where it set
/// out to where the cursor points. A walking piece follows the cursor, from
/// where it stands to where the cursor went.
pub open spec fn move_decision(
    g: Game,
    key: Option<char>,
    moved: Option<CursorMovedEvent>,
) -> MoveDecision {
    let m = g.moving.unwrap();
    if key matches Some(k) && is_cancel(k) {
        MoveDecision::Cancel
    } else if m.flying {
        if key matches Some(k) && is_select(k) {
            destination_decision(g, m.start_pos, g.cursor.pos())
        } else {
            MoveDecision::Ignore
        }
    } else {
        match moved {
            Some(ev) => destination_decision(g, g.board@.positions[m.entity], ev.0),
            None => MoveDecision::Ignore,
        }
    }
}

/// The distance between two squares of the grid fits in a byte.
pub proof fn lemma_distance_on_board(a: Vec2I, b: Vec2I)
    requires
        on_board(a),
        on_board(b),
    ensures
        0 <= a.spec_distance(b) <= 30,
{
}

fn decide_destination(g: &Game, from: Vec2I, to: Vec2I) -> (d: MoveDecision)
    requires
        g.wf(),
        g.moving is Some,
        g.player_turn < g.player_info.len(),
        on_board(from),
        on_board(to),
    ensures
        d == destination_decision(*g, from, to),
{
    proof {
        lemma_distance_on_board(to, from);
    }
    let m = g.moving.unwrap();
    let cost = to.distance(from);
    if m.flying && cost > m.movement_budget {
        MoveDecision::OutOfRange
    } else {
        match g.board.get_entity(to) {
            Some(other) => if g.is_friendly(other) {
                MoveDecision::Blocked
            } else {
                MoveDecision::Attack(other)
            },
            None => if cost > m.movement_budget {
                MoveDecision::OutOfRange
            } else {
                MoveDecision::Step { to, cost }
            },
        }
    }
}

/// Decides what becomes of an input while a piece is moved.
pub fn decide_move(g: &Game, key: Option<char>, moved: Option<CursorMovedEvent>) -> (d:
    MoveDecision)
    requires
        g.wf(),
        g.state is MoveMoving,
        moved matches Some(ev) ==> on_board(ev.0),
    ensures
        d == move_decision(*g, key, moved),
{
    let m = g.moving.unwrap();
    let cancel = match key {
        Some(k) => k == 'k' || k == 'K',
        None => false,
    };
    let select = match key {
        Some(k) => k == 's' || k == 'S',
        None => false,
    };
    if cancel {
        MoveDecision::Cancel
    } else if m.flying {
        if select {
            decide_destination(g, m.start_pos, g.cursor.get_pos_v())
        } else {
            MoveDecision::Ignore
        }
    } else {
        match moved {
            Some(ev) => decide_destination(g, g.board.get_entity_pos(m.entity), ev.0),
            None => MoveDecision::Ignore,
        }
    }
}

/// Whether the fight can be fought: the attacker lives and has the
/// strength it attacks with, and the defender stands on the board and has
/// a defence.
pub open spec fn can_fight(g: Game, a: AttackingComponent) -> bool {
    &&& g.world@.contains_key(a.attacker)
    &&& g.board@.has(a.attackee)
    &&& g.world@[a.attackee].defend is Some
    &&& if a.ranged {
        g.world@[a.attacker].ranged is Some
    } else {
        g.world@[a.attacker].attack is Some
    }
}

/// The state in which a fight is fought out.
pub open spec fn fighting_state(ranged: bool) -> GameState {
    if ranged {
        GameState::RangedAttackDo
    } else {
        GameState::AttackDo
    }
}

/// Opens a fight. A fight that cannot be fought is not opened: nothing
/// changes. Otherwise the bottom line is cleared, the cursor goes out, and
/// an explosion is shown on the defender's square.
pub fn attack_start(g: &mut Game, a: AttackingComponent, events: &mut Vec<GameEvent>) -> (started:
    bool)
    requires
        old(g).wf(),
        old(g).state.has_player(),
        !a.ranged ==> old(g).move_in_order(),
    ensures
        final(g).wf(),
        started == can_fight(*old(g), a),
        started ==> {
            &&& *final(g) == (Game {
                state: fighting_state(a.ranged),
                attacking: Some(a),
                cursor: Cursor { visible: false, redraw: true, ..old(g).cursor },
                ..*old(g)
            })
            &&& final(events)@ == old(events)@ + seq![
                GameEvent::Text(None),
                GameEvent::Explosion(
                    StartExplosion { at: old(g).board@.positions[a.attackee], idx: 0 },
                ),
            ]
        },
        !started ==> *final(g) == *old(g) && final(events)@ == old(events)@,
{
    let attacker_ok = match g.world.get(a.attacker) {
        Some(piece) => if a.ranged {
            piece.ranged.is_some()
        } else {
            piece.attack.is_some()
        },
        None => false,
    };
    if !attacker_ok || !g.board._has_entity(a.attackee) {
        return false;
    }
    if g.world.get(a.attackee).unwrap().defend.is_none() {
        return false;
    }
    events.push(GameEvent::Text(None));
    g.cursor.set_invisible();
    let v = g.board.get_entity_pos(a.attackee);
    events.push(GameEvent::Explosion(StartExplosion { at: v, idx: 0 }));
    g.attacking = Some(a);
    g.state = if a.ranged {
        GameState::RangedAttackDo
    } else {
        GameState::AttackDo
    };
    true
}

/// The cursor for aiming a shot from `pos`: the target cursor on that
/// square, held back until it is moved.
pub open spec fn targeting_cursor(c: Cursor, pos: Vec2I) -> Cursor {
    Cursor {
        cursor: CURSOR_TARGET,
        redraw: true,
        hide_till_moved: true,
        x: pos.x,
        y: pos.y,
        ..c
    }
}

/// Sets the cursor up for aiming the shot of `shooter` and tells its range.
pub fn ranged_attack_setup(g: &mut Game, shooter: Entity, events: &mut Vec<GameEvent>)
    requires
        old(g).board.wf(),
        old(g).board@.has(shooter),
        old(g).world@.contains_key(shooter),
        old(g).world@[shooter].ranged is Some,
    ensures
        *final(g) == (Game {
            cursor: targeting_cursor(old(g).cursor, old(g).board@.positions[shooter]),
            ..*old(g)
        }),
        final(events)@ == old(events)@.push(
            GameEvent::Text(
                Some(Message::RangedAttack { range: old(g).world@[shooter].ranged.unwrap().range }),
            ),
        ),
{
    g.cursor.set_type(CURSOR_TARGET);
    g.cursor.hide_till_moved();
    let pos = g.board.get_entity_pos(shooter);
    g.cursor.set_pos(pos);
    let range = g.world.get(shooter).unwrap().ranged.unwrap().range;
    events.push(GameEvent::Text(Some(Message::RangedAttack { range })));
}

/// The cursor after a destination was turned down: a flying piece's cursor
/// is held back until it is moved, a walking piece's cursor goes back to
/// where it came from.
pub open spec fn refused_cursor(
    c: Cursor,
    flying: bool,
    out_of_range: bool,
    moved: Option<CursorMovedEvent>,
) -> Cursor {
    if flying {
        if out_of_range {
            Cursor { hide_till_moved: true, ..c }
        } else {
            c
        }
    } else {
        match moved {
            Some(ev) => Cursor { x: ev.1.x, y: ev.1.y, redraw: true, ..c },
            None => c,
        }
    }
}

/// What a decision on an input does to the game while a piece is moved.
///
/// A move called off ends, and the piece may be chosen again. A
/// destination out of range or blocked is turned down. An attack opens a
/// fight if it can be fought, and is turned down like a blocked
/// destination if not. A step takes the
/// top piece of the mover's square to the destination, and its cost goes
/// from what is left of the allowance to what is spent; the move is over
/// after the jump of a flying piece, and when nothing is left of the
/// allowance. A piece that can shoot then aims; otherwise the next piece is
/// chosen.
pub open spec fn moved_as_decided(
    pre: Game,
    post: Game,
    events: Seq<GameEvent>,
    d: MoveDecision,
    moved: Option<CursorMovedEvent>,
) -> bool {
    let m = pre.moving.unwrap();
    match d {
        MoveDecision::Ignore => post == pre && events =~= Seq::<GameEvent>::empty(),
        MoveDecision::Cancel => {
            &&& post == (Game {
                state: GameState::MoveChoose,
                moving: None,
                cursor: choosing_cursor(pre.cursor),
                world: post.world,
                ..pre
            })
            &&& post.world@ =~= pre.world@.insert(m.entity, pre.world@[m.entity].rested())
            &&& events =~= seq![GameEvent::Text(None)]
        },
        MoveDecision::OutOfRange => {
            &&& post == (Game { cursor: refused_cursor(pre.cursor, m.flying, true, moved), ..pre })
            &&& events =~= seq![GameEvent::Text(Some(Message::OutOfRange))]
        },
        MoveDecision::Blocked => {
            &&& post == (Game { cursor: refused_cursor(pre.cursor, m.flying, false, moved), ..pre })
            &&& events =~= seq![GameEvent::Text(Some(Message::CannotMoveToOccupiedSquare))]
        },
        MoveDecision::Attack(other) => {
            let a = AttackingComponent { attacker: m.entity, attackee: other, ranged: false };
            if can_fight(pre, a) {
                &&& post == (Game {
                    state: GameState::AttackDo,
                    attacking: Some(a),
                    cursor: Cursor { visible: false, redraw: true, ..pre.cursor },
                    ..pre
                })
                &&& events =~= seq![
                    GameEvent::Text(None),
                    GameEvent::Explosion(
                        StartExplosion { at: pre.board@.positions[other], idx: 0 },
                    ),
                ]
            } else {
                &&& post == (Game {
                    cursor: refused_cursor(pre.cursor, m.flying, false, moved),
                    ..pre
                })
                &&& events =~= Seq::<GameEvent>::empty()
            }
        },
        MoveDecision::Step { to, cost } => {
            let from = pre.board@.positions[m.entity];
            let mover = pre.board@.stacks[from].last();
            let left = (m.movement_budget - cost) as u8;
            let went = seq![
                GameEvent::Text(None),
                GameEvent::Move(BoardMove { entity: mover, from, to }),
            ];
            &&& post.board@ =~= pre.board@.pop(from).put(to, mover)
            &&& if m.flying || left == 0 {
                match pre.world@[m.entity].ranged {
                    Some(r) => {
                        &&& post == (Game {
                            state: GameState::RangedAttackChoose,
                            moving: None,
                            ranged_attack: Some(m.entity),
                            cursor: targeting_cursor(pre.cursor, post.board@.positions[m.entity]),
                            board: post.board,
                            ..pre
                        })
                        &&& events =~= went.push(
                            GameEvent::Text(Some(Message::RangedAttack { range: r.range })),
                        )
                    },
                    None => {
                        &&& post == (Game {
                            state: GameState::MoveChoose,
                            moving: None,
                            cursor: choosing_cursor(pre.cursor),
                            board: post.board,
                            ..pre
                        })
                        &&& events =~= went
                    },
                }
            } else {
                &&& post == (Game {
                    moving: Some(
                        MovingComponent {
                            movement_budget: left,
                            steps: (m.steps + cost) as u8,
                            ..m
                        },
                    ),
                    board: post.board,
                    ..pre
                })
                &&& events =~= went
            }
        },
    }
}

/// The move of a piece: takes one input, decides on it, and does what was
/// decided.
pub fn move_moving_keyboard(
    g: &mut Game,
    key: Option<char>,
    moved: Option<CursorMovedEvent>,
) -> (events: Vec<GameEvent>)
    requires
        old(g).wf(),
        old(g).state is MoveMoving,
        moved matches Some(ev) ==> on_board(ev.0) && on_board(ev.1),
    ensures
        final(g).wf(),
        final(g).world.room() == old(g).world.room(),
        moved_as_decided(
            *old(g),
            *final(g),
            events@,
            move_decision(*old(g), key, moved),
            moved,
        ),
{
    let mut events: Vec<GameEvent> = Vec::new();
    let m = g.moving.unwrap();
    match decide_move(g, key, moved) {
        MoveDecision::Ignore => {},
        MoveDecision::Cancel => {
            events.push(GameEvent::Text(None));
            g.world.get_mut(m.entity).has_moved = false;
            g.moving = None;
            g.state = GameState::MoveChoose;
            move_choose_setup(g);
        },
        MoveDecision::OutOfRange => {
            events.push(GameEvent::Text(Some(Message::OutOfRange)));
            if m.flying {
                g.cursor.hide_till_moved();
            } else {
                match moved {
                    Some(ev) => g.cursor.set_pos(ev.1),
                    None => {},
                }
            }
        },
        MoveDecision::Blocked => {
            events.push(GameEvent::Text(Some(Message::CannotMoveToOccupiedSquare)));
            if !m.flying {
                match moved {
                    Some(ev) => g.cursor.set_pos(ev.1),
                    None => {},
                }
            }
        },
        MoveDecision::Attack(other) => {
            let a = AttackingComponent { attacker: m.entity, attackee: other, ranged: false };
            let started = attack_start(g, a, &mut events);
            if !started && !m.flying {
                match moved {
                    Some(ev) => g.cursor.set_pos(ev.1),
                    None => {},
                }
            }
        },
        MoveDecision::Step { to, cost } => {
            events.push(GameEvent::Text(None));
            let from = g.board.get_entity_pos(m.entity);
            let mover = g.board.move_entity(m.entity, to);
            events.push(GameEvent::Move(BoardMove { entity: mover, from, to }));
            let left = m.movement_budget - cost;
            if m.flying || left == 0 {
                g.moving = None;
                let shoots = g.world.get(m.entity).unwrap().ranged.is_some();
                if shoots {
                    g.ranged_attack = Some(m.entity);
                    g.state = GameState::RangedAttackChoose;
                    ranged_attack_setup(g, m.entity, &mut events);
                } else {
                    g.state = GameState::MoveChoose;
                    move_choose_setup(g);
                }
            } else {
                g.moving = Some(
                    MovingComponent { movement_budget: left, steps: m.steps + cost, ..m },
                );
            }
        },
    }
    events
}

/// Whether the attacker wins: its strength and its die together are no
/// less than the defence and the defender's die together.
pub open spec fn attack_wins(strength: u8, attack_die: u8, defence: u8, defence_die: u8) -> bool {
    strength + attack_die >= defence + defence_die
}

/// Decides a fight from the two strengths and the two dice.
pub fn attack_succeeds(strength: u8, attack_die: u8, defence: u8, defence_die: u8) -> (won: bool)
    ensures
        won == attack_wins(strength, attack_die, defence, defence_die),
{
    let attack: u16 = strength as u16 + attack_die as u16;
    let def: u16 = defence as u16 + defence_die as u16;
    attack >= def
}

/// The creations of those among the first `n` wizards whose own piece is
/// `wizard`.
pub open spec fn creations_upto(players: Seq<Player>, wizard: Entity, n: int) -> Seq<Entity>
    decreases n,
{
    if n <= 0 {
        Seq::empty()
    } else {
        creations_upto(players, wizard, n - 1) + (if players[n - 1].handle == Some(wizard) {
            players[n - 1].creations@
        } else {
            Seq::empty()
        })
    }
}

/// All that leaves play with `killed`: the piece itself and, where it is a
/// wizard's own piece, all that the wizard has created.
pub open spec fn victims(g: Game, killed: Entity) -> Seq<Entity> {
    seq![killed] + creations_upto(g.player_info@, killed, g.player_info.len() as int)
}

/// A wizard after `wizard` was killed: one whose own piece that was has no
/// creations left, any other is as before.
pub open spec fn bereft(pre: Player, post: Player, wizard: Entity) -> bool {
    if pre.handle == Some(wizard) {
        post == (Player { creations: post.creations, ..pre }) && post.creations@
            =~= Seq::<Entity>::empty()
    } else {
        post == pre
    }
}

/// What a kill does to the game: the killed piece, and with a wizard's own
/// piece all that the wizard created, leave the board and the arena.
pub open spec fn killed_in(pre: Game, post: Game, killed: Entity) -> bool {
    &&& post == (Game {
        board: post.board,
        world: post.world,
        player_info: post.player_info,
        ..pre
    })
    &&& post.board@ =~= pre.board@.without_all(victims(pre, killed))
    &&& post.world@ =~= pre.world@.remove_keys(victims(pre, killed).to_set())
    &&& post.player_info.len() == pre.player_info.len()
    &&& forall|i: int|
        0 <= i < pre.player_info.len() ==> bereft(
            pre.player_info[i],
            #[trigger] post.player_info[i],
            killed,
        )
}

/// Kills a piece and reports it. No move may be in progress and no shot
/// aimed, since the piece that moves or aims may be the one killed.
pub fn kill(g: &mut Game, killer: Entity, killed: Entity, events: &mut Vec<GameEvent>)
    requires
        old(g).wf(),
        !(old(g).state is MoveMoving || old(g).state is AttackDo
            || old(g).state is RangedAttackChoose),
    ensures
        final(g).wf(),
        final(g).world.room() >= old(g).world.room(),
        killed_in(*old(g), *final(g), killed),
        final(events)@ == old(events)@.push(GameEvent::Kill(BoardKill { killer, killed })),
{
    let mut gone: Vec<Entity> = Vec::new();
    gone.push(killed);
    let mut i: usize = 0;
    while i < g.player_info.len()
        invariant
            i <= g.player_info.len(),
            g.player_info.len() == old(g).player_info.len(),
            *g == (Game { player_info: g.player_info, ..*old(g) }),
            gone@ == seq![killed] + creations_upto(old(g).player_info@, killed, i as int),
            forall|k: int|
                0 <= k < i ==> bereft(old(g).player_info[k], #[trigger] g.player_info[k], killed),
            forall|k: int|
                i <= k < g.player_info.len() ==> #[trigger] g.player_info[k] == old(
                    g,
                ).player_info[k],
        decreases g.player_info.len() - i,
    {
        let is_wizard = match g.player_info[i].handle {
            Some(h) => h == killed,
            None => false,
        };
        if is_wizard {
            let mut creations: Vec<Entity> = Vec::new();
            std::mem::swap(&mut g.player_info[i].creations, &mut creations);
            gone.append(&mut creations);
        }
        i += 1;
        assert(gone@ =~= seq![killed] + creations_upto(old(g).player_info@, killed, i as int));
    }
    g.board.remove_all(&gone);
    g.world.despawn_all(&gone);
    events.push(GameEvent::Kill(BoardKill { killer, killed }));
    proof {
        assert forall|e: Entity| #[trigger] g.board@.has(e) implies g.world@.contains_key(e) by {
            assert(old(g).board@.has(e));
        }
        assert forall|k: int| 0 <= k < g.player_info.len() implies (#[trigger] g.player_info[k]).spells.wf() by {
            assert(bereft(old(g).player_info[k], g.player_info[k], killed));
        }
    }
}

/// The strength the attacker of a fight attacks with.
pub open spec fn strength(g: Game, a: AttackingComponent) -> u8 {
    if a.ranged {
        g.world@[a.attacker].ranged.unwrap().ranged_combat
    } else {
        g.world@[a.attacker].attack.unwrap().combat
    }
}

/// Whether the fight ends with the defender killed: it can be fought, and
/// the attacker wins with these dice.
pub open spec fn fight_won(g: Game, a: AttackingComponent, attack_die: u8, defence_die: u8) -> bool {
    can_fight(g, a) && attack_wins(
        strength(g, a),
        attack_die,
        g.world@[a.attackee].defend.unwrap().defence,
        defence_die,
    )
}

/// What a fight with these dice does to the game: the defender is killed
/// if the attacker wins, and nothing happens to either if not; then the
/// fight and the move are over and the next piece is chosen.
pub open spec fn fought(
    pre: Game,
    post: Game,
    events: Seq<GameEvent>,
    attack_die: u8,
    defence_die: u8,
) -> bool {
    let a = pre.attacking.unwrap();
    let after = Game {
        state: GameState::MoveChoose,
        attacking: None,
        moving: None,
        cursor: choosing_cursor(pre.cursor),
        ..pre
    };
    if fight_won(pre, a, attack_die, defence_die) {
        &&& killed_in(after, post, a.attackee)
        &&& events =~= seq![
            GameEvent::Kill(BoardKill { killer: a.attacker, killed: a.attackee }),
        ]
    } else {
        post == after && events =~= Seq::<GameEvent>::empty()
    }
}

/// Fights the fight out with the given dice.
pub fn attack_do(g: &mut Game, attack_die: u8, defence_die: u8) -> (events: Vec<GameEvent>)
    requires
        old(g).wf(),
        old(g).state is AttackDo || old(g).state is RangedAttackDo,
    ensures
        final(g).wf(),
        final(g).world.room() >= old(g).world.room(),
        final(g).state is MoveChoose,
        fought(*old(g), *final(g), events@, attack_die, defence_die),
{
    let mut events: Vec<GameEvent> = Vec::new();
    let a = g.attacking.unwrap();
    let combat = match g.world.get(a.attacker) {
        Some(piece) => if a.ranged {
            match piece.ranged {
                Some(r) => Some(r.ranged_combat),
                None => None,
            }
        } else {
            match piece.attack {
                Some(c) => Some(c.combat),
                None => None,
            }
        },
        None => None,
    };
    let defence = if g.board._has_entity(a.attackee) {
        match g.world.get(a.attackee).unwrap().defend {
            Some(d) => Some(d.defence),
            None => None,
        }
    } else {
        None
    };
    g.attacking = None;
    g.moving = None;
    g.state = GameState::MoveChoose;
    move_choose_setup(g);
    match (combat, defence) {
        (Some(combat), Some(defence)) => {
            if attack_succeeds(combat, attack_die, defence, defence_die) {
                kill(g, a.attacker, a.attackee, &mut events);
            }
        },
        _ => {},
    }
    events
}

/// The number of sides of the die each side of a fight rolls.
pub const DIE_SIDES: u8 = 9;

/// Fights the fight out with dice rolled from 1 to 9.
pub fn attack_do_rolled(g: &mut Game) -> (events: Vec<GameEvent>)
    requires
        old(g).wf(),
        old(g).state is AttackDo || old(g).state is RangedAttackDo,
    ensures
        final(g).wf(),
        final(g).world.room() >= old(g).world.room(),
        final(g).state is MoveChoose,
        exists|attack_die: u8, defence_die: u8|
            1 <= attack_die <= DIE_SIDES && 1 <= defence_die <= DIE_SIDES && #[trigger] fought(
                *old(g),
                *final(g),
                events@,
                attack_die,
                defence_die,
            ),
{
    let attack_die = random_in_range(1, DIE_SIDES + 1);
    let defence_die = random_in_range(1, DIE_SIDES + 1);
    attack_do(g, attack_die, defence_die)
}

/// Ends the aiming of a shot: nobody aims any more, and the cursor is a
/// box again.
pub fn ranged_attack_exit(g: &mut Game)
    ensures
        *final(g) == (Game {
            ranged_attack: None,
            cursor: Cursor { cursor: CURSOR_BOX, redraw: true, ..old(g).cursor },
            ..*old(g)
        }),
{
    g.ranged_attack = None;
    g.cursor.set_type(CURSOR_BOX);
}

/// What becomes of an input while a shot is aimed.
#[derive(Debug, PartialEq, Eq, Structural, Clone, Copy)]
pub enum ShotDecision {
    /// The input means nothing here.
    Ignore,
    /// The shot is not fired.
    Cancel,
    /// The target lies further away than the shot reaches.
    OutOfRange,
    /// The target square is empty: the shot is wasted.
    Miss,
    /// The shot is fired at the piece.
    Shoot(Entity),
}

/// What becomes of an input while a shot is aimed. The cancel key calls
/// the shot off. The select key fires at the top piece of the square the
/// cursor points at, if that square lies within the range of the shooter.
pub open spec fn shot_decision(g: Game, key: char) -> ShotDecision {
    let shooter = g.ranged_attack.unwrap();
    if is_cancel(key) {
        ShotDecision::Cancel
    } else if is_select(key) {
        if g.cursor.pos().spec_distance(g.board@.positions[shooter]) <= g.world@[shooter].ranged.unwrap().range {
            match g.board@.top(g.cursor.pos()) {
                Some(target) => ShotDecision::Shoot(target),
                None => ShotDecision::Miss,
            }
        } else {
            ShotDecision::OutOfRange
        }
    } else {
        ShotDecision::Ignore
    }
}

/// What a decision on an input does to the game while a shot is aimed. A
/// shot out of range is turned down and may be aimed again. Every other
/// decision but to ignore the input ends the aiming; a shot at a piece
/// opens a fight if it can be fought, and otherwise, as after a miss or a
/// shot called off, the next piece is chosen.
pub open spec fn shot_as_decided(
    pre: Game,
    post: Game,
    events: Seq<GameEvent>,
    d: ShotDecision,
) -> bool {
    let shooter = pre.ranged_attack.unwrap();
    let chosen = Game {
        state: GameState::MoveChoose,
        ranged_attack: None,
        cursor: choosing_cursor(pre.cursor),
        ..pre
    };
    match d {
        ShotDecision::Ignore => post == pre && events =~= Seq::<GameEvent>::empty(),
        ShotDecision::Cancel => post == chosen && events =~= seq![GameEvent::Text(None)],
        ShotDecision::OutOfRange => {
            &&& post == (Game { cursor: Cursor { hide_till_moved: true, ..pre.cursor }, ..pre })
            &&& events =~= seq![
                GameEvent::Text(None),
                GameEvent::Text(Some(Message::OutOfRange)),
            ]
        },
        ShotDecision::Miss => post == chosen && events =~= seq![GameEvent::Text(None)],
        ShotDecision::Shoot(target) => {
            let a = AttackingComponent { attacker: shooter, attackee: target, ranged: true };
            if can_fight(pre, a) {
                &&& post == (Game {
                    state: GameState::RangedAttackDo,
                    ranged_attack: None,
                    attacking: Some(a),
                    cursor: Cursor {
                        cursor: CURSOR_BOX,
                        visible: false,
                        redraw: true,
                        ..pre.cursor
                    },
                    ..pre
                })
                &&& events =~= seq![
                    GameEvent::Text(None),
                    GameEvent::Text(None),
                    GameEvent::Explosion(
                        StartExplosion { at: pre.board@.positions[target], idx: 0 },
                    ),
                ]
            } else {
                post == chosen && events =~= seq![GameEvent::Text(None)]
            }
        },
    }
}

/// The aiming of a shot: takes one key, decides on it, and does what was
/// decided.
pub fn ranged_attack_keyboard(g: &mut Game, key: char) -> (events: Vec<GameEvent>)
    requires
        old(g).wf(),
        old(g).state is RangedAttackChoose,
    ensures
        final(g).wf(),
        *final(g) == (Game {
            state: final(g).state,
            ranged_attack: final(g).ranged_attack,
            attacking: final(g).attacking,
            cursor: final(g).cursor,
            ..*old(g)
        }),
        shot_as_decided(*old(g), *final(g), events@, shot_decision(*old(g), key)),
{
    let mut events: Vec<GameEvent> = Vec::new();
    let shooter = g.ranged_attack.unwrap();
    if key == 'k' || key == 'K' {
        events.push(GameEvent::Text(None));
        ranged_attack_exit(g);
        g.state = GameState::MoveChoose;
        move_choose_setup(g);
    } else if key == 's' || key == 'S' {
        events.push(GameEvent::Text(None));
        let cursor_pos = g.cursor.get_pos_v();
        let from = g.board.get_entity_pos(shooter);
        proof {
            lemma_distance_on_board(cursor_pos, from);
        }
        let distance = cursor_pos.distance(from);
        let range = g.world.get(shooter).unwrap().ranged.unwrap().range;
        if distance <= range {
            let target = g.board.get_entity(cursor_pos);
            ranged_attack_exit(g);
            g.state = GameState::MoveChoose;
            let started = match target {
                Some(target) => {
                    let a = AttackingComponent { attacker: shooter, attackee: target, ranged: true };
                    attack_start(g, a, &mut events)
                },
                None => false,
            };
            if !started {
                move_choose_setup(g);
            }
        } else {
            events.push(GameEvent::Text(Some(Message::OutOfRange)));
            g.cursor.hide_till_moved();
        }
    }
    events
}

/// What the bottom line says of the square the cursor went to: the piece
/// on top of it, or nothing where the square is empty.
pub fn board_describe_piece(g: &Game, moved: CursorMovedEvent) -> (event: GameEvent)
    requires
        g.board.wf(),
        on_board(moved.0),
    ensures
        event == GameEvent::Text(
            match g.board@.top(moved.0) {
                Some(e) => Some(Message::Describe(e)),
                None => None,
            },
        ),
{
    match g.board.get_entity(moved.0) {
        Some(e) => GameEvent::Text(Some(Message::Describe(e))),
        None => GameEvent::Text(None),
    }
}

/// Whether `post` comes of `pre` by one step of the moving piece that
/// costs `cost`: some input is decided as that step, and the step is done.
pub open spec fn step_taken(pre: Game, post: Game, cost: u8) -> bool {
    exists|key: Option<char>, moved: Option<CursorMovedEvent>, events: Seq<GameEvent>, to: Vec2I|
        #[trigger] step_by(pre, post, cost, key, moved, events, to)
}

/// Whether the input is decided as a step to `to` that costs `cost`, and
/// `post` and `events` are what comes of the step.
pub open spec fn step_by(
    pre: Game,
    post: Game,
    cost: u8,
    key: Option<char>,
    moved: Option<CursorMovedEvent>,
    events: Seq<GameEvent>,
    to: Vec2I,
) -> bool {
    &&& move_decision(pre, key, moved) == (MoveDecision::Step { to, cost })
    &&& moved_as_decided(pre, post, events, MoveDecision::Step { to, cost }, moved)
}

/// The sum of the first `n` costs.
pub open spec fn total_cost(costs: Seq<u8>, n: int) -> int
    decreases n,
{
    if n <= 0 {
        0
    } else {
        total_cost(costs, n - 1) + costs[n - 1]
    }
}

/// A step never costs more than is left of the allowance, and what it
/// costs goes from what is left to what is spent. The move goes on after
/// the step just when the piece walks and something is left.
pub proof fn lemma_step_within_budget(pre: Game, post: Game, cost: u8)
    requires
        pre.wf(),
        pre.state is MoveMoving,
        step_taken(pre, post, cost),
    ensures
        cost <= pre.moving.unwrap().movement_budget,
        post.world == pre.world,
        post.state is MoveMoving <==> !pre.moving.unwrap().flying && cost
            < pre.moving.unwrap().movement_budget,
        post.state is MoveMoving ==> {
            &&& post.moving matches Some(m)
            &&& m.entity == pre.moving.unwrap().entity
            &&& m.steps == pre.moving.unwrap().steps + cost
            &&& m.movement_budget == pre.moving.unwrap().movement_budget - cost
        },
{
    let (key, moved, events, to) = choose|
        key: Option<char>,
        moved: Option<CursorMovedEvent>,
        events: Seq<GameEvent>,
        to: Vec2I,
    | #[trigger] step_by(pre, post, cost, key, moved, events, to);
    assert(moved_as_decided(pre, post, events, MoveDecision::Step { to, cost }, moved));
    let m = pre.moving.unwrap();
    if m.flying {
        assert(destination_decision(pre, m.start_pos, pre.cursor.pos()) == (MoveDecision::Step {
            to,
            cost,
        }));
    } else {
        assert(destination_decision(pre, pre.board@.positions[m.entity], moved.unwrap().0)
            == (MoveDecision::Step { to, cost }));
    }
}

/// However many steps a piece takes in one move, their costs never add up
/// to more than the piece is allowed: with `games` the game before each
/// step and after the last, and `costs` the cost of each step, the sum of
/// the costs and what was spent before the first step is at most the
/// allowance of the piece.
pub proof fn lemma_walk_within_allowance(games: Seq<Game>, costs: Seq<u8>)
    requires
        games.len() == costs.len() + 1,
        forall|i: int| 0 <= i < costs.len() ==> (#[trigger] games[i]).wf(),
        forall|i: int| 0 <= i < costs.len() ==> (#[trigger] games[i]).state is MoveMoving,
        forall|i: int|
            0 <= i < costs.len() ==> step_taken(games[i], #[trigger] games[i + 1], costs[i]),
    ensures
        costs.len() > 0 ==> games[0].moving.unwrap().steps + total_cost(
            costs,
            costs.len() as int,
        ) <= games[0].world@[games[0].moving.unwrap().entity].moveable.movement,
{
    if costs.len() > 0 {
        let n = costs.len() as int;
        lemma_walk_prefix(games, costs, n - 1);
        lemma_step_within_budget(games[n - 1], games[n - 1 + 1], costs[n - 1]);
    }
}

/// Before step `n` of a move, what the piece has spent is what it had
/// spent at the outset and the costs of the steps so far, and the piece
/// and its allowance are those of the outset.
pub proof fn lemma_walk_prefix(games: Seq<Game>, costs: Seq<u8>, n: int)
    requires
        games.len() == costs.len() + 1,
        0 <= n < costs.len(),
        forall|i: int| 0 <= i < costs.len() ==> (#[trigger] games[i]).wf(),
        forall|i: int| 0 <= i < costs.len() ==> (#[trigger] games[i]).state is MoveMoving,
        forall|i: int|
            0 <= i < costs.len() ==> step_taken(games[i], #[trigger] games[i + 1], costs[i]),
    ensures
        games[n].moving.unwrap().entity == games[0].moving.unwrap().entity,
        games[n].moving.unwrap().steps == games[0].moving.unwrap().steps + total_cost(costs, n),
        games[n].world@[games[n].moving.unwrap().entity].moveable.movement
            == games[0].world@[games[0].moving.unwrap().entity].moveable.movement,
    decreases n,
{
    if n > 0 {
        lemma_walk_prefix(games, costs, n - 1);
        lemma_step_within_budget(games[n - 1], games[n - 1 + 1], costs[n - 1]);
    }
}

/// A piece that is marked as moved is not chosen again: the select key on
/// it changes nothing in the game.
pub proof fn lemma_moved_piece_stays(pre: Game, post: Game, events: Seq<GameEvent>, key: char)
    requires
        pre.wf(),
        pre.state is MoveChoose,
        is_select(key),
        pre.board@.top(pre.cursor.pos()) matches Some(e) && pre.world@[e].has_moved,
        piece_chosen(pre, post, events, key),
    ensures
        post == pre,
{
}

/// A move that ends with its last step leaves the piece marked as moved.
pub proof fn lemma_finished_move_leaves_the_mark(pre: Game, post: Game, cost: u8)
    requires
        pre.wf(),
        pre.state is MoveMoving,
        step_taken(pre, post, cost),
        pre.world@[pre.moving.unwrap().entity].has_moved,
    ensures
        post.world@[pre.moving.unwrap().entity].has_moved,
{
    lemma_step_within_budget(pre, post, cost);
}

/// A fight is decided by the strengths and the dice alone: fought twice
/// from the same game with the same dice, it ends the same way, with the
/// same reports, the same pieces on the board and in the arena, and the
/// same state.
pub proof fn lemma_fight_reproducible(
    pre: Game,
    first: Game,
    second: Game,
    first_events: Seq<GameEvent>,
    second_events: Seq<GameEvent>,
    attack_die: u8,
    defence_die: u8,
)
    requires
        pre.attacking is Some,
        fought(pre, first, first_events, attack_die, defence_die),
        fought(pre, second, second_events, attack_die, defence_die),
    ensures
        first_events == second_events,
        first_events.len() == 1 <==> fight_won(
            pre,
            pre.attacking.unwrap(),
            attack_die,
            defence_die,
        ),
        first.state == second.state,
        first.board@ == second.board@,
        first.world@ == second.world@,
        first.player_turn == second.player_turn,
{
    let a = pre.attacking.unwrap();
    let after = Game {
        state: GameState::MoveChoose,
        attacking: None,
        moving: None,
        cursor: choosing_cursor(pre.cursor),
        ..pre
    };
    if fight_won(pre, a, attack_die, defence_die) {
        assert(killed_in(after, first, a.attackee));
        assert(killed_in(after, second, a.attackee));
        assert(first.board@ =~= second.board@);
        assert(first.world@ =~= second.world@);
    }
}

} // verus!
