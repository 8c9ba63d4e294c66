//! The turn cycle: one input in, one step of the game, and what it reports
//! out.
//!
//! A round runs through the menus, in which every wizard chooses a spell,
//! the casting, in which every wizard casts the spell it chose, and the
//! movement, in which every wizard moves its pieces and fights. Then the
//! next round begins.

use vstd::prelude::*;
use crate::board::on_board;
use crate::cursor::{Cursor, CursorMovedEvent, Direction};
use crate::game::{Game, GameEvent, Input, Message};
use crate::gamestate::GameState;
use crate::screen::board::{
    attack_do_rolled, board_describe_piece, fought, is_end_turn, move_choose_keyboard,
    move_decision, move_moving_keyboard, move_next, moved_as_decided, movement_begun,
    piece_chosen, ranged_attack_keyboard, shot_as_decided, shot_decision, DIE_SIDES,
};
use crate::screen::help::{
    help_combat_keyboard_input, help_keyboard_input, help_subscreen_keyboard_input, help_target,
    screen_change,
};
use crate::screen::menu::{
    first_screen_answered, initial_menu_keyboard_input, name_entered, play_begun,
    player_name_menu_keyboard_input, player_name_menu_transition,
};
use crate::screen::spellcasting::{
    cast_as_decided, cast_decision, cast_spell, casting_begun, spell_next,
};
use crate::screen::turnmenu::{
    menu_answered, menu_passed_on, spell_for_letter, spell_selected,
    turn_menu_choose_spell_keyboard, turn_menu_examine_board_keyboard,
    turn_menu_examine_one_spell_keyboard, turn_menu_examine_spell_keyboard, turn_menu_keyboard,
    turn_menu_select_spell_keyboard, turn_menu_transition, TurnMenuEvent,
};

verus! {

/// The direction a key moves the cursor in: A and D to the sides, W up and
/// X down, Q, E, Z and C to the four corners. A letter counts in either
/// case.
pub open spec fn key_direction(key: char) -> Option<Direction> {
    if key == 'a' || key == 'A' {
        Some(Direction::Left)
    } else if key == 'd' || key == 'D' {
        Some(Direction::Right)
    } else if key == 'w' || key == 'W' {
        Some(Direction::Up)
    } else if key == 'q' || key == 'Q' {
        Some(Direction::UpLeft)
    } else if key == 'e' || key == 'E' {
        Some(Direction::UpRight)
    } else if key == 'x' || key == 'X' {
        Some(Direction::Down)
    } else if key == 'z' || key == 'Z' {
        Some(Direction::DownLeft)
    } else if key == 'c' || key == 'C' {
        Some(Direction::DownRight)
    } else {
        None
    }
}

pub fn direction_of(key: char) -> (d: Option<Direction>)
    ensures
        d == key_direction(key),
{
    if key == 'a' || key == 'A' {
        Some(Direction::Left)
    } else if key == 'd' || key == 'D' {
        Some(Direction::Right)
    } else if key == 'w' || key == 'W' {
        Some(Direction::Up)
    } else if key == 'q' || key == 'Q' {
        Some(Direction::UpLeft)
    } else if key == 'e' || key == 'E' {
        Some(Direction::UpRight)
    } else if key == 'x' || key == 'X' {
        Some(Direction::Down)
    } else if key == 'z' || key == 'Z' {
        Some(Direction::DownLeft)
    } else if key == 'c' || key == 'C' {
        Some(Direction::DownRight)
    } else {
        None
    }
}

/// The direction an input moves the cursor in, if it moves it.
pub open spec fn input_direction(input: Input) -> Option<Direction> {
    match input {
        Input::Char(key) => key_direction(key),
        _ => None,
    }
}

/// The key an input is, where it is one: the character, or a line feed for
/// the enter key.
pub open spec fn input_key(input: Input) -> Option<char> {
    match input {
        Input::Char(key) => Some(key),
        Input::Enter => Some('\n'),
        _ => None,
    }
}

/// The game after the cursor has followed the input.
pub open spec fn cursor_followed(pre: Game, input: Input) -> Game {
    match input_direction(input) {
        Some(d) => Game { cursor: pre.cursor.after_step(d), ..pre },
        None => pre,
    }
}

/// What the cursor reports of its move on the input.
pub open spec fn cursor_report(pre: Game, input: Input) -> Option<CursorMovedEvent> {
    match input_direction(input) {
        Some(d) => if pre.cursor.after_step(d).moved {
            Some(CursorMovedEvent(pre.cursor.after_step(d).pos(), pre.cursor.pos()))
        } else {
            None
        },
        None => None,
    }
}

/// Whether the bottom line tells what lies under the cursor in the state.
pub open spec fn describes(state: GameState) -> bool {
    state is MoveChoose || state is RangedAttackChoose || state is CastSpell
        || state is TurnMenuExamineBoard
}

/// What is told of the square the cursor went to, in a state that tells
/// it.
pub open spec fn told(pre: Game, input: Input) -> Seq<GameEvent> {
    match cursor_report(pre, input) {
        Some(ev) => if describes(pre.state) {
            seq![
                GameEvent::Text(
                    match pre.board@.top(ev.0) {
                        Some(e) => Some(Message::Describe(e)),
                        None => None,
                    },
                ),
            ]
        } else {
            Seq::empty()
        },
        None => Seq::empty(),
    }
}

/// Nothing happens.
pub open spec fn idle(pre: Game, post: Game, events: Seq<GameEvent>) -> bool {
    post == pre && events =~= Seq::<GameEvent>::empty()
}

/// What a key does to the game while the book is shown: 0 leaves for the
/// menu, and a letter shows the spell it stands for.
pub open spec fn book_examined(pre: Game, post: Game, events: Seq<GameEvent>, key: char) -> bool {
    if is_end_turn(key) {
        &&& post == (Game { state: GameState::TurnMenu, ..pre })
        &&& events =~= seq![GameEvent::Text(None)]
    } else {
        match spell_for_letter(key, pre.current().spells.spells.len() as int) {
            Some(choice) => {
                &&& post == (Game {
                    state: GameState::TurnMenuExamineOneSpell,
                    examined_spell: Some(choice),
                    ..pre
                })
                &&& events =~= seq![
                    GameEvent::Text(None),
                    GameEvent::Text(Some(Message::AnyKeyToExit)),
                ]
            },
            None => idle(pre, post, events),
        }
    }
}

/// What a key does to the game while the spell for the round is chosen:
/// unless the wizard is being asked about an illusion, 0 leaves for the
/// menu and a letter picks the spell it stands for.
pub open spec fn spell_chosen(pre: Game, post: Game, events: Seq<GameEvent>, key: char) -> bool {
    if pre.pick_illusion {
        spell_selected(pre, post, events, key, None)
    } else if is_end_turn(key) {
        &&& post == (Game { state: GameState::TurnMenu, ..pre })
        &&& events =~= seq![GameEvent::Text(None)]
    } else {
        spell_selected(
            pre,
            post,
            events,
            key,
            match spell_for_letter(key, pre.current().spells.spells.len() as int) {
                Some(choice) => Some(TurnMenuEvent(choice)),
                None => None,
            },
        )
    }
}

/// What the end of a round does to the game: no move, no fight and no shot
/// is left over, nobody is asked anything, and the first wizard gets the
/// menu for the next round.
pub open spec fn round_ended(pre: Game, post: Game) -> bool {
    post == (Game {
        state: GameState::TurnMenu,
        player_turn: 0,
        moving: None,
        attacking: None,
        ranged_attack: None,
        pick_illusion: false,
        examined_spell: None,
        ..pre
    })
}

/// Ends the round.
pub fn round_end(g: &mut Game)
    requires
        old(g).wf(),
        old(g).state is RoundEnd,
    ensures
        final(g).wf(),
        round_ended(*old(g), *final(g)),
{
    g.moving = None;
    g.attacking = None;
    g.ranged_attack = None;
    g.pick_illusion = false;
    g.examined_spell = None;
    g.player_turn = 0;
    g.state = GameState::TurnMenu;
}

/// What an input does to the game in the state the game is in, once the
/// cursor has followed the input. A state that waits for a key stays as it
/// is on any other input; a state that only leads on to the next does so
/// on every input.
pub open spec fn acted(
    pre: Game,
    post: Game,
    events: Seq<GameEvent>,
    input: Input,
    moved: Option<CursorMovedEvent>,
) -> bool {
    match pre.state {
        GameState::InitialMenu => match input {
            Input::Char(key) => first_screen_answered(pre, post, events, key),
            _ => idle(pre, post, events),
        },
        GameState::Help => match input {
            Input::Char(key) => match help_target(key) {
                Some(to) => post == (Game { state: to, ..pre }) && events =~= screen_change(to),
                None => idle(pre, post, events),
            },
            _ => idle(pre, post, events),
        },
        GameState::HelpCombat => if input_key(input) is Some {
            &&& post == (Game { state: GameState::HelpRangedCombat, ..pre })
            &&& events =~= screen_change(GameState::HelpRangedCombat)
        } else {
            idle(pre, post, events)
        },
        GameState::HelpKeys | GameState::HelpSpells | GameState::HelpRangedCombat
        | GameState::HelpUndead | GameState::HelpMounts | GameState::HelpVictory => if input_key(
            input,
        ) is Some {
            &&& post == (Game { state: GameState::Help, ..pre })
            &&& events =~= screen_change(GameState::Help)
        } else {
            idle(pre, post, events)
        },
        GameState::PlayerNameMenu => name_entered(pre, post, input) && events =~= Seq::<
            GameEvent,
        >::empty(),
        GameState::PlayerNameMenuTransition => play_begun(pre, post, events),
        GameState::TurnMenu => match input {
            Input::Char(key) => menu_answered(pre, post, events, key),
            _ => idle(pre, post, events),
        },
        GameState::TurnMenuExamineSpell => match input {
            Input::Char(key) => book_examined(pre, post, events, key),
            _ => idle(pre, post, events),
        },
        GameState::TurnMenuExamineOneSpell => match input {
            Input::Char(_) => {
                &&& post == (Game { state: GameState::TurnMenuExamineSpell, ..pre })
                &&& events =~= seq![
                    GameEvent::Text(None),
                    GameEvent::Text(Some(Message::PressZeroToExit)),
                ]
            },
            _ => idle(pre, post, events),
        },
        GameState::TurnMenuSelectSpell => match input {
            Input::Char(key) => spell_chosen(pre, post, events, key),
            _ => idle(pre, post, events),
        },
        GameState::TurnMenuExamineBoard => match input {
            Input::Char(key) => if is_end_turn(key) {
                &&& post == (Game {
                    state: GameState::TurnMenu,
                    cursor: Cursor { visible: false, redraw: true, ..pre.cursor },
                    ..pre
                })
                &&& events =~= seq![GameEvent::Text(None)]
            } else {
                idle(pre, post, events)
            },
            _ => idle(pre, post, events),
        },
        GameState::TurnMenuTransition => menu_passed_on(pre, post) && events =~= Seq::<
            GameEvent,
        >::empty(),
        GameState::CastSpellSetup => casting_begun(pre, post, events),
        GameState::CastSpell => cast_as_decided(
            pre,
            post,
            events,
            cast_decision(pre, input_key(input)),
        ),
        GameState::MoveSetup => movement_begun(pre, post, events),
        GameState::MoveChoose => match input {
            Input::Char(key) => piece_chosen(pre, post, events, key),
            _ => idle(pre, post, events),
        },
        GameState::MoveMoving => moved_as_decided(
            pre,
            post,
            events,
            move_decision(pre, input_key(input), moved),
            moved,
        ),
        GameState::AttackDo | GameState::RangedAttackDo => match input {
            Input::ExplosionFinished => exists|attack_die: u8, defence_die: u8|
                1 <= attack_die <= DIE_SIDES && 1 <= defence_die <= DIE_SIDES && #[trigger] fought(
                    pre,
                    post,
                    events,
                    attack_die,
                    defence_die,
                ),
            _ => idle(pre, post, events),
        },
        GameState::RangedAttackChoose => match input {
            Input::Char(key) => shot_as_decided(pre, post, events, shot_decision(pre, key)),
            _ => idle(pre, post, events),
        },
        GameState::RoundEnd => round_ended(pre, post) && events =~= Seq::<GameEvent>::empty(),
    }
}

/// What one input does to the game: the cursor follows the input; where
/// the state tells what lies under the cursor, that is told first; then
/// the state acts on the input.
pub open spec fn stepped(pre: Game, post: Game, events: Seq<GameEvent>, input: Input) -> bool {
    let first = told(pre, input);
    &&& events.len() >= first.len()
    &&& events.subrange(0, first.len() as int) =~= first
    &&& acted(
        cursor_followed(pre, input),
        post,
        events.subrange(first.len() as int, events.len() as int),
        input,
        cursor_report(pre, input),
    )
}

/// Takes one input and makes one step of the game. At most one change of
/// state comes of it.
pub fn handle_input(g: &mut Game, input: Input) -> (events: Vec<GameEvent>)
    requires
        old(g).wf(),
        old(g).world.room() >= 8,
    ensures
        final(g).wf(),
        final(g).world.room() >= old(g).world.room() - 8,
        stepped(*old(g), *final(g), events@, input),
{
    let moved = match input {
        Input::Char(key) => match direction_of(key) {
            Some(d) => g.cursor.keyboard_input(d),
            None => None,
        },
        _ => None,
    };
    let key = match input {
        Input::Char(key) => Some(key),
        Input::Enter => Some('\n'),
        _ => None,
    };
    let mut events: Vec<GameEvent> = Vec::new();
    match moved {
        Some(ev) => match g.state {
            GameState::MoveChoose | GameState::RangedAttackChoose | GameState::CastSpell
            | GameState::TurnMenuExamineBoard => {
                events.push(board_describe_piece(g, ev));
            },
            _ => {},
        },
        None => {},
    }
    let ghost first = events@;
    let ghost mid = *g;
    let mut acts: Vec<GameEvent> = match g.state {
        GameState::InitialMenu => match input {
            Input::Char(k) => initial_menu_keyboard_input(g, k),
            _ => Vec::new(),
        },
        GameState::Help => match input {
            Input::Char(k) => help_keyboard_input(g, k),
            _ => Vec::new(),
        },
        GameState::HelpCombat => if key.is_some() {
            help_combat_keyboard_input(g)
        } else {
            Vec::new()
        },
        GameState::HelpKeys | GameState::HelpSpells | GameState::HelpRangedCombat
        | GameState::HelpUndead | GameState::HelpMounts | GameState::HelpVictory => if key.is_some() {
            help_subscreen_keyboard_input(g)
        } else {
            Vec::new()
        },
        GameState::PlayerNameMenu => {
            player_name_menu_keyboard_input(g, input);
            Vec::new()
        },
        GameState::PlayerNameMenuTransition => player_name_menu_transition(g),
        GameState::TurnMenu => match input {
            Input::Char(k) => turn_menu_keyboard(g, k),
            _ => Vec::new(),
        },
        GameState::TurnMenuExamineSpell => match input {
            Input::Char(k) => {
                let mut acts: Vec<GameEvent> = Vec::new();
                match turn_menu_choose_spell_keyboard(g, k, &mut acts) {
                    Some(picked) => turn_menu_examine_spell_keyboard(g, picked, &mut acts),
                    None => {},
                }
                acts
            },
            _ => Vec::new(),
        },
        GameState::TurnMenuExamineOneSpell => match input {
            Input::Char(_) => turn_menu_examine_one_spell_keyboard(g),
            _ => Vec::new(),
        },
        GameState::TurnMenuSelectSpell => match input {
            Input::Char(k) => {
                if g.pick_illusion {
                    turn_menu_select_spell_keyboard(g, k, None)
                } else {
                    let mut acts: Vec<GameEvent> = Vec::new();
                    let picked = turn_menu_choose_spell_keyboard(g, k, &mut acts);
                    if k == '0' {
                        acts
                    } else {
                        turn_menu_select_spell_keyboard(g, k, picked)
                    }
                }
            },
            _ => Vec::new(),
        },
        GameState::TurnMenuExamineBoard => match input {
            Input::Char(k) => turn_menu_examine_board_keyboard(g, k),
            _ => Vec::new(),
        },
        GameState::TurnMenuTransition => {
            turn_menu_transition(g);
            Vec::new()
        },
        GameState::CastSpellSetup => spell_next(g),
        GameState::CastSpell => cast_spell(g, key),
        GameState::MoveSetup => move_next(g),
        GameState::MoveChoose => match input {
            Input::Char(k) => move_choose_keyboard(g, k),
            _ => Vec::new(),
        },
        GameState::MoveMoving => move_moving_keyboard(g, key, moved),
        GameState::AttackDo | GameState::RangedAttackDo => match input {
            Input::ExplosionFinished => attack_do_rolled(g),
            _ => Vec::new(),
        },
        GameState::RangedAttackChoose => match input {
            Input::Char(k) => ranged_attack_keyboard(g, k),
            _ => Vec::new(),
        },
        GameState::RoundEnd => {
            round_end(g);
            Vec::new()
        },
    };
    proof {
        assert(acted(mid, *g, acts@, input, moved));
    }
    let ghost second = acts@;
    events.append(&mut acts);
    proof {
        assert(events@.subrange(0, first.len() as int) =~= first);
        assert(events@.subrange(first.len() as int, events@.len() as int) =~= second);
    }
    events
}

} // verus!
