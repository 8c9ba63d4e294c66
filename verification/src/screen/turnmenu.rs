//! The menu of a wizard before a round: looking at the book, choosing the
//! spell for the round, and looking at the board.

use vstd::prelude::*;
use crate::cursor::{Cursor, PositionCursorOnEntity, CURSOR_BOX};
use crate::game::{Game, GameEvent, Message};
use crate::gamestate::GameState;
use crate::player::{Player, SpellList};
use crate::screen::board::{cursor_on_wizard, is_end_turn, position_cursor_on_wizard};
use crate::spell::ASpell;

verus! {

/// A spell of the book was picked by its letter.
#[derive(Debug, PartialEq, Eq, Structural, Clone, Copy)]
pub struct TurnMenuEvent(pub usize);

/// The spell that the key picks in a book of `len` spells: the spells are
/// lettered from A on, and a letter counts in either case.
pub open spec fn spell_for_letter(key: char, len: int) -> Option<usize> {
    let c = key as int;
    if 65 <= c < 65 + len {
        Some((c - 65) as usize)
    } else if 97 <= c < 97 + len {
        Some((c - 97) as usize)
    } else {
        None
    }
}

/// The cursor for looking at the board from the menu: a box on the
/// wizard's piece, held back until it is moved.
pub open spec fn examining_cursor(g: Game) -> Cursor {
    let shaped = Game {
        cursor: Cursor { cursor: CURSOR_BOX, visible: true, redraw: true, ..g.cursor },
        ..g
    };
    Cursor { hide_till_moved: true, ..cursor_on_wizard(shaped) }
}

/// Sets the screen up for looking at the board.
pub fn turn_menu_examine_board_setup(g: &mut Game, events: &mut Vec<GameEvent>)
    requires
        old(g).wf(),
        old(g).player_turn < old(g).player_info.len(),
    ensures
        final(g).wf(),
        *final(g) == (Game { cursor: examining_cursor(*old(g)), ..*old(g) }),
        final(events)@ == old(events)@ + (match old(g).current().handle {
            Some(h) => seq![
                GameEvent::Text(Some(Message::PressZeroToExit)),
                GameEvent::CursorOn(PositionCursorOnEntity(h)),
            ],
            None => seq![GameEvent::Text(Some(Message::PressZeroToExit))],
        }),
{
    events.push(GameEvent::Text(Some(Message::PressZeroToExit)));
    g.cursor.set_type(CURSOR_BOX);
    g.cursor.set_visible();
    position_cursor_on_wizard(g, events);
    g.cursor.hide_till_moved();
}

/// Ends the looking at the board: the bottom line is cleared and the cursor
/// goes out.
pub fn turn_menu_examine_board_exit(g: &mut Game, events: &mut Vec<GameEvent>)
    ensures
        *final(g) == (Game {
            cursor: Cursor { visible: false, redraw: true, ..old(g).cursor },
            ..*old(g)
        }),
        final(events)@ == old(events)@.push(GameEvent::Text(None)),
{
    events.push(GameEvent::Text(None));
    g.cursor.set_invisible();
}

/// What a key does to the game in the menu of a wizard: 1 shows the book,
/// 2 lets a spell be chosen, 3 shows the board, and 4 hands the menu to
/// the next wizard. Leaving the menu clears the bottom line.
pub open spec fn menu_answered(pre: Game, post: Game, events: Seq<GameEvent>, key: char) -> bool {
    if key == '1' {
        &&& post == (Game { state: GameState::TurnMenuExamineSpell, ..pre })
        &&& events =~= seq![
            GameEvent::Text(None),
            GameEvent::Text(Some(Message::PressZeroToExit)),
        ]
    } else if key == '2' {
        &&& post == (Game { state: GameState::TurnMenuSelectSpell, ..pre })
        &&& events =~= seq![
            GameEvent::Text(None),
            GameEvent::Text(Some(Message::PressZeroToExit)),
        ]
    } else if key == '3' {
        &&& post == (Game {
            state: GameState::TurnMenuExamineBoard,
            cursor: examining_cursor(pre),
            ..pre
        })
        &&& events =~= seq![GameEvent::Text(None)] + (match pre.current().handle {
            Some(h) => seq![
                GameEvent::Text(Some(Message::PressZeroToExit)),
                GameEvent::CursorOn(PositionCursorOnEntity(h)),
            ],
            None => seq![GameEvent::Text(Some(Message::PressZeroToExit))],
        })
    } else if key == '4' {
        &&& post == (Game { state: GameState::TurnMenuTransition, ..pre })
        &&& events =~= seq![GameEvent::Text(None)]
    } else {
        post == pre && events =~= Seq::<GameEvent>::empty()
    }
}

/// The menu of a wizard: takes one key.
pub fn turn_menu_keyboard(g: &mut Game, key: char) -> (events: Vec<GameEvent>)
    requires
        old(g).wf(),
        old(g).state is TurnMenu,
    ensures
        final(g).wf(),
        menu_answered(*old(g), *final(g), events@, key),
{
    let mut events: Vec<GameEvent> = Vec::new();
    if key == '1' {
        events.push(GameEvent::Text(None));
        g.state = GameState::TurnMenuExamineSpell;
        events.push(GameEvent::Text(Some(Message::PressZeroToExit)));
    } else if key == '2' {
        events.push(GameEvent::Text(None));
        g.state = GameState::TurnMenuSelectSpell;
        events.push(GameEvent::Text(Some(Message::PressZeroToExit)));
    } else if key == '3' {
        events.push(GameEvent::Text(None));
        g.state = GameState::TurnMenuExamineBoard;
        turn_menu_examine_board_setup(g, &mut events);
    } else if key == '4' {
        events.push(GameEvent::Text(None));
        g.state = GameState::TurnMenuTransition;
    }
    events
}

/// What handing the menu on does to the game: the next wizard gets the
/// menu, or, when every wizard has had it, the casting starts with the
/// first wizard and the cursor comes up.
pub open spec fn menu_passed_on(pre: Game, post: Game) -> bool {
    if pre.player_turn + 1 >= pre.players {
        post == (Game {
            player_turn: 0,
            state: GameState::CastSpellSetup,
            cursor: Cursor { visible: true, redraw: true, ..pre.cursor },
            ..pre
        })
    } else {
        post == (Game {
            player_turn: (pre.player_turn + 1) as u8,
            state: GameState::TurnMenu,
            ..pre
        })
    }
}

/// Hands the menu to the next wizard, or starts the casting when every
/// wizard has had the menu.
pub fn turn_menu_transition(g: &mut Game)
    requires
        old(g).wf(),
        old(g).state is TurnMenuTransition,
    ensures
        final(g).wf(),
        menu_passed_on(*old(g), *final(g)),
{
    g.player_turn += 1;
    if g.player_turn >= g.players {
        g.player_turn = 0;
        g.cursor.set_visible();
        g.state = GameState::CastSpellSetup;
    } else {
        g.state = GameState::TurnMenu;
    }
}

/// The key of a spell list: 0 leaves the list for the menu and clears the
/// bottom line; a letter picks the spell it stands for.
pub fn turn_menu_choose_spell_keyboard(g: &mut Game, key: char, events: &mut Vec<GameEvent>) -> (r:
    Option<TurnMenuEvent>)
    requires
        old(g).wf(),
        old(g).state is TurnMenuExamineSpell || old(g).state is TurnMenuSelectSpell,
    ensures
        final(g).wf(),
        is_end_turn(key) ==> {
            &&& *final(g) == (Game { state: GameState::TurnMenu, ..*old(g) })
            &&& final(events)@ == old(events)@.push(GameEvent::Text(None))
            &&& r is None
        },
        !is_end_turn(key) ==> {
            &&& *final(g) == *old(g)
            &&& final(events)@ == old(events)@
            &&& r == (match spell_for_letter(key, old(g).current().spells.spells.len() as int) {
                Some(choice) => Some(TurnMenuEvent(choice)),
                None => None,
            })
        },
{
    if key == '0' {
        events.push(GameEvent::Text(None));
        g.state = GameState::TurnMenu;
        return None;
    }
    let len = g.get_player().spells.len();
    let c = key as u32 as usize;
    if c >= 65 && c - 65 < len {
        return Some(TurnMenuEvent(c - 65));
    }
    if c >= 97 && c - 97 < len {
        return Some(TurnMenuEvent(c - 97));
    }
    None
}

/// A spell was picked from the list that shows the book: that spell is
/// shown.
pub fn turn_menu_examine_spell_keyboard(
    g: &mut Game,
    picked: TurnMenuEvent,
    events: &mut Vec<GameEvent>,
)
    requires
        old(g).wf(),
        old(g).state is TurnMenuExamineSpell,
    ensures
        final(g).wf(),
        *final(g) == (Game {
            state: GameState::TurnMenuExamineOneSpell,
            examined_spell: Some(picked.0),
            ..*old(g)
        }),
        final(events)@ == old(events)@ + seq![
            GameEvent::Text(None),
            GameEvent::Text(Some(Message::AnyKeyToExit)),
        ],
{
    events.push(GameEvent::Text(None));
    g.examined_spell = Some(picked.0);
    g.state = GameState::TurnMenuExamineOneSpell;
    events.push(GameEvent::Text(Some(Message::AnyKeyToExit)));
}

/// While one spell is shown, any key goes back to the list.
pub fn turn_menu_examine_one_spell_keyboard(g: &mut Game) -> (events: Vec<GameEvent>)
    requires
        old(g).wf(),
        old(g).state is TurnMenuExamineOneSpell,
    ensures
        final(g).wf(),
        *final(g) == (Game { state: GameState::TurnMenuExamineSpell, ..*old(g) }),
        events@ == seq![
            GameEvent::Text(None),
            GameEvent::Text(Some(Message::PressZeroToExit)),
        ],
{
    let mut events: Vec<GameEvent> = Vec::new();
    events.push(GameEvent::Text(None));
    g.state = GameState::TurnMenuExamineSpell;
    events.push(GameEvent::Text(Some(Message::PressZeroToExit)));
    events
}

/// Whether the key answers yes, whether it answers no.
pub open spec fn is_yes(key: char) -> bool {
    key == 'y' || key == 'Y'
}

pub open spec fn is_no(key: char) -> bool {
    key == 'n' || key == 'N'
}

/// The book after the wizard has answered whether the next cast is to be
/// an illusion.
pub open spec fn book_with_illusion(book: SpellList, illusion: bool) -> SpellList {
    SpellList { illusion, ..book }
}

/// What a key, or the spell it picked from the list, does to the game
/// while the spell for the round is chosen.
///
/// A spell picked from the list becomes the chosen spell. Where that spell
/// can be an illusion, the wizard is asked, and the answer is kept in the
/// book until the spell is cast; the menu comes back after the answer.
/// Where it cannot, the menu comes back at once. Nothing but the book of
/// the wizard whose turn it is changes in any wizard.
pub open spec fn spell_selected(
    pre: Game,
    post: Game,
    events: Seq<GameEvent>,
    key: char,
    picked: Option<TurnMenuEvent>,
) -> bool {
    let before = pre.current().spells;
    let after = post.current().spells;
    &&& post == (Game {
        state: post.state,
        pick_illusion: post.pick_illusion,
        player_info: post.player_info,
        ..pre
    })
    &&& post.player_info.len() == pre.player_info.len()
    &&& forall|i: int|
        0 <= i < pre.player_info.len() && i != pre.player_turn ==> #[trigger] post.player_info[i]
            == pre.player_info[i]
    &&& post.current() == (Player { spells: after, ..pre.current() })
    &&& after.spells == before.spells
    &&& if pre.pick_illusion {
        let answered = is_yes(key) || is_no(key);
        &&& after.chosen_spell == before.chosen_spell
        &&& after.illusion == (if answered {
            is_yes(key)
        } else {
            before.illusion
        })
        &&& post.pick_illusion == !answered
        &&& post.state == (if answered {
            GameState::TurnMenu
        } else {
            GameState::TurnMenuSelectSpell
        })
        &&& events =~= (if answered {
            seq![GameEvent::Text(None)]
        } else {
            Seq::<GameEvent>::empty()
        })
    } else {
        &&& after.illusion == before.illusion
        &&& match picked {
            Some(ev) => {
                let asks = before.spells[ev.0 as int].spec_can_be_illusion();
                &&& after.chosen_spell == Some(ev.0)
                &&& post.pick_illusion == asks
                &&& post.state == (if asks {
                    GameState::TurnMenuSelectSpell
                } else {
                    GameState::TurnMenu
                })
                &&& events =~= (if asks {
                    seq![GameEvent::Text(Some(Message::IllusionPrompt))]
                } else {
                    seq![GameEvent::Text(None)]
                })
            },
            None => {
                &&& after.chosen_spell == before.chosen_spell
                &&& !post.pick_illusion
                &&& post.state is TurnMenuSelectSpell
                &&& events =~= Seq::<GameEvent>::empty()
            },
        }
    }
}

/// The choice of the spell for the round: takes one key, or the spell it
/// picked from the list.
pub fn turn_menu_select_spell_keyboard(
    g: &mut Game,
    key: char,
    picked: Option<TurnMenuEvent>,
) -> (events: Vec<GameEvent>)
    requires
        old(g).wf(),
        old(g).state is TurnMenuSelectSpell,
        picked matches Some(ev) ==> ev.0 < old(g).current().spells.spells.len(),
    ensures
        final(g).wf(),
        spell_selected(*old(g), *final(g), events@, key, picked),
{
    let mut events: Vec<GameEvent> = Vec::new();
    if g.pick_illusion {
        if key == 'y' || key == 'Y' {
            g.get_player_mut().spells.illusion = true;
            g.pick_illusion = false;
            events.push(GameEvent::Text(None));
            g.state = GameState::TurnMenu;
        } else if key == 'n' || key == 'N' {
            g.get_player_mut().spells.illusion = false;
            g.pick_illusion = false;
            events.push(GameEvent::Text(None));
            g.state = GameState::TurnMenu;
        }
    } else {
        match picked {
            Some(ev) => {
                g.get_player_mut().spells.set_chosen(ev.0);
                let can_be_illusion = g.get_player().spells.get_chosen_spell().unwrap().can_be_illusion();
                if can_be_illusion {
                    g.pick_illusion = true;
                    events.push(GameEvent::Text(Some(Message::IllusionPrompt)));
                } else {
                    events.push(GameEvent::Text(None));
                    g.state = GameState::TurnMenu;
                }
            },
            None => {},
        }
    }
    events
}

/// While the board is looked at from the menu, 0 goes back to the menu.
pub fn turn_menu_examine_board_keyboard(g: &mut Game, key: char) -> (events: Vec<GameEvent>)
    requires
        old(g).wf(),
        old(g).state is TurnMenuExamineBoard,
    ensures
        final(g).wf(),
        is_end_turn(key) ==> {
            &&& *final(g) == (Game {
                state: GameState::TurnMenu,
                cursor: Cursor { visible: false, redraw: true, ..old(g).cursor },
                ..*old(g)
            })
            &&& events@ == seq![GameEvent::Text(None)]
        },
        !is_end_turn(key) ==> *final(g) == *old(g) && events@ == Seq::<GameEvent>::empty(),
{
    let mut events: Vec<GameEvent> = Vec::new();
    if key == '0' {
        turn_menu_examine_board_exit(g, &mut events);
        g.state = GameState::TurnMenu;
    }
    events
}

} // verus!
