//! The screens before play: how many wizards there are, and who they are.

use vstd::prelude::*;
use crate::board::{on_board, BoardPutEntity};
use crate::display::Color;
use crate::entity::Entity;
use crate::game::{CapturePlayer, Game, GameEvent, Input, Message};
use crate::gamestate::GameState;
use crate::player::{book_of, fair_picks, get_start_positions, start_positions, Player};
use crate::screen::help::{prompt_of, screen_change};
use crate::screen::turnmenu::{is_no, is_yes};
use crate::spell::{AllSpells, SpellBox};
use crate::vec::Vec2I;

verus! {

/// The longest name a wizard can have.
pub const MAX_NAME_LEN: usize = 12;

/// The key that takes the last character of the name back.
pub const DELETE: char = '\u{7f}';

/// The number a digit key from `low` to 8 stands for.
pub open spec fn digit_from(key: char, low: int) -> Option<u8> {
    let c = key as int;
    if 48 + low <= c <= 56 {
        Some((c - 48) as u8)
    } else {
        None
    }
}

fn digit(key: char, low: u8) -> (r: Option<u8>)
    requires
        low <= 8,
    ensures
        r == digit_from(key, low as int),
{
    let c = key as u32;
    if c >= 48 + low as u32 && c <= 56 {
        Some((c - 48) as u8)
    } else {
        None
    }
}

/// The colour of the wizard who picked the number `choice`, from 1 to 8.
pub open spec fn spec_wizard_color(choice: u8) -> Color {
    if choice == 1 {
        Color::Red
    } else if choice == 2 {
        Color::Purple
    } else if choice == 3 {
        Color::Green
    } else if choice == 4 {
        Color::Aqua
    } else if choice == 5 {
        Color::MidYellow
    } else if choice == 6 {
        Color::Yellow
    } else if choice == 7 {
        Color::Grey
    } else {
        Color::White
    }
}

pub fn wizard_color(choice: u8) -> (c: Color)
    requires
        1 <= choice <= 8,
    ensures
        c == spec_wizard_color(choice),
{
    match choice {
        1 => Color::Red,
        2 => Color::Purple,
        3 => Color::Green,
        4 => Color::Aqua,
        5 => Color::MidYellow,
        6 => Color::Yellow,
        7 => Color::Grey,
        _ => Color::White,
    }
}

/// What a key does to the game on the first screen: H shows the help; the
/// first digit from 2 to 8 is the number of wizards; the next digit from 1
/// to 8 is the level of the wizards the computer plays, and leads on to
/// the names.
pub open spec fn first_screen_answered(
    pre: Game,
    post: Game,
    events: Seq<GameEvent>,
    key: char,
) -> bool {
    if key == 'h' || key == 'H' {
        &&& post == (Game { state: GameState::Help, ..pre })
        &&& events =~= screen_change(GameState::Help)
    } else if pre.players == 0 {
        &&& post == (match digit_from(key, 2) {
            Some(n) => Game { players: n, ..pre },
            None => pre,
        })
        &&& events =~= Seq::<GameEvent>::empty()
    } else {
        match digit_from(key, 1) {
            Some(level) => {
                &&& post == (Game { ai_level: level, state: GameState::PlayerNameMenu, ..pre })
                &&& events =~= seq![GameEvent::Text(None)]
            },
            None => post == pre && events =~= Seq::<GameEvent>::empty(),
        }
    }
}

/// The first screen: takes one key.
pub fn initial_menu_keyboard_input(g: &mut Game, key: char) -> (events: Vec<GameEvent>)
    requires
        old(g).wf(),
        old(g).state is InitialMenu,
    ensures
        final(g).wf(),
        first_screen_answered(*old(g), *final(g), events@, key),
{
    let mut events: Vec<GameEvent> = Vec::new();
    if key == 'h' || key == 'H' {
        events.push(GameEvent::Text(None));
        g.state = GameState::Help;
        events.push(GameEvent::Text(Some(Message::HelpPrompt)));
        return events;
    }
    if g.players == 0 {
        match digit(key, 2) {
            Some(n) => {
                g.players = n;
            },
            None => {},
        }
    } else {
        match digit(key, 1) {
            Some(level) => {
                g.ai_level = level;
                events.push(GameEvent::Text(None));
                g.state = GameState::PlayerNameMenu;
            },
            None => {},
        }
    }
    events
}

/// `String::from_iter` over the characters of `chars`: the string that
/// reads as they do.
#[verifier::external_body]
fn string_from_chars(chars: &Vec<char>) -> (s: String)
    ensures
        s@ == chars@,
{
    chars.iter().collect()
}

/// Whether a character can stand in a name: a letter without accent, a
/// digit, or a blank.
pub open spec fn name_char(c: char) -> bool {
    ('a' <= c <= 'z') || ('A' <= c <= 'Z') || ('0' <= c <= '9') || c == ' '
}

/// The name as typed so far, after one more key: the delete key takes the
/// last character back, and a character that can stand in a name is added
/// as long as the name is not at its full length.
pub open spec fn typed_after(typed: Seq<char>, c: char) -> Seq<char> {
    if c == DELETE {
        if typed.len() > 0 {
            typed.drop_last()
        } else {
            typed
        }
    } else if typed.len() < MAX_NAME_LEN && name_char(c) {
        typed.push(c)
    } else {
        typed
    }
}

/// A wizard that has just been entered: named and looking as entered, with
/// strengths within their limits, a book drawn fairly from the catalogue,
/// no spell chosen, no piece and no creations.
pub open spec fn newly_entered(
    p: Player,
    name: String,
    cc: bool,
    icon: u8,
    color: Color,
    allspells: AllSpells,
) -> bool {
    &&& p.name == name
    &&& p.computer_controlled == cc
    &&& p.character_icon == icon
    &&& p.color == color
    &&& exists|picks: Seq<usize>|
        fair_picks(picks, allspells.0.len() as int) && p.spells.spells@ == #[trigger] book_of(
            allspells.0@,
            picks,
        )
    &&& p.spells.chosen_spell is None
    &&& !p.spells.illusion
    &&& p.handle is None
    &&& p.creations@ =~= Seq::<Entity>::empty()
    &&& p.law_chaos == 0
    &&& 1 <= p.defence <= 5
    &&& 1 <= p.combat <= 5
    &&& 3 <= p.manoeuvre <= 7
    &&& 6 <= p.magic_resistance <= 8
}

/// The entry of nothing: what the name screen starts from.
pub open spec fn blank_entry() -> CapturePlayer {
    CapturePlayer {
        init: false,
        name: None,
        computer_controlled: None,
        character_icon: None,
        color: None,
    }
}

/// What an input does on the name screen. The first input only opens the
/// entry. Then the name is typed and closed with the enter key, which
/// counts once the name has a character; then Y or N tells whether the
/// computer plays the wizard; then a digit from 1 to 8 picks the figure;
/// then a digit from 1 to 8 picks the colour, and the wizard joins the
/// others.
pub open spec fn name_entered(pre: Game, post: Game, input: Input) -> bool {
    let c = pre.capture;
    if !c.init {
        post == (Game { capture: CapturePlayer { init: true, ..c }, ..pre })
    } else if c.name is None {
        match input {
            Input::Enter => if pre.typed.len() >= 1 {
                &&& post == (Game {
                    capture: CapturePlayer { name: post.capture.name, ..c },
                    typed: post.typed,
                    ..pre
                })
                &&& post.capture.name matches Some(name) && name@ =~= pre.typed@
                &&& post.typed@ =~= Seq::<char>::empty()
            } else {
                post == pre
            },
            Input::Char(key) => {
                &&& post == (Game { typed: post.typed, ..pre })
                &&& post.typed@ =~= typed_after(pre.typed@, key)
            },
            _ => post == pre,
        }
    } else if c.computer_controlled is None {
        match input {
            Input::Char(key) => if is_yes(key) || is_no(key) {
                post == (Game {
                    capture: CapturePlayer { computer_controlled: Some(is_yes(key)), ..c },
                    ..pre
                })
            } else {
                post == pre
            },
            _ => post == pre,
        }
    } else if c.character_icon is None {
        match input {
            Input::Char(key) => post == (Game {
                capture: CapturePlayer { character_icon: digit_from(key, 1), ..c },
                ..pre
            }),
            _ => post == pre,
        }
    } else {
        match input {
            Input::Char(key) => match digit_from(key, 1) {
                Some(choice) => {
                    &&& post == (Game {
                        state: GameState::PlayerNameMenuTransition,
                        capture: blank_entry(),
                        player_info: post.player_info,
                        ..pre
                    })
                    &&& post.player_info@.drop_last() =~= pre.player_info@
                    &&& post.player_info.len() == pre.player_info.len() + 1
                    &&& newly_entered(
                        post.player_info@.last(),
                        c.name.unwrap(),
                        c.computer_controlled.unwrap(),
                        c.character_icon.unwrap(),
                        spec_wizard_color(choice),
                        pre.allspells,
                    )
                },
                None => post == pre,
            },
            _ => post == pre,
        }
    }
}

/// The name screen: takes one input and enters what it tells of the
/// wizard.
pub fn player_name_menu_keyboard_input(g: &mut Game, input: Input)
    requires
        old(g).wf(),
        old(g).state is PlayerNameMenu,
    ensures
        final(g).wf(),
        name_entered(*old(g), *final(g), input),
{
    if !g.capture.init {
        g.capture.init = true;
        return ;
    }
    if g.capture.name.is_none() {
        match input {
            Input::Enter => {
                if g.typed.len() >= 1 {
                    g.capture.name = Some(string_from_chars(&g.typed));
                    g.typed = Vec::new();
                }
            },
            Input::Char(c) => {
                if c == DELETE {
                    if g.typed.len() > 0 {
                        g.typed.pop();
                    }
                } else if g.typed.len() < MAX_NAME_LEN && ((c >= 'a' && c <= 'z') || (c >= 'A'
                    && c <= 'Z') || (c >= '0' && c <= '9') || c == ' ') {
                    g.typed.push(c);
                }
            },
            _ => {},
        }
        return ;
    }
    if g.capture.computer_controlled.is_none() {
        match input {
            Input::Char(c) => {
                if c == 'y' || c == 'Y' {
                    g.capture.computer_controlled = Some(true);
                } else if c == 'n' || c == 'N' {
                    g.capture.computer_controlled = Some(false);
                }
            },
            _ => {},
        }
        return ;
    }
    if g.capture.character_icon.is_none() {
        match input {
            Input::Char(c) => {
                g.capture.character_icon = digit(c, 1);
            },
            _ => {},
        }
        return ;
    }
    match input {
        Input::Char(c) => match digit(c, 1) {
            Some(choice) => {
                let name = g.capture.name.take().unwrap();
                let mut p = Player::new(
                    name,
                    g.capture.computer_controlled.unwrap(),
                    g.capture.character_icon.unwrap(),
                    wizard_color(choice),
                );
                p.pick_spells(&g.allspells);
                g.player_info.push(p);
                g.capture = CapturePlayer {
                    init: false,
                    name: None,
                    computer_controlled: None,
                    character_icon: None,
                    color: None,
                };
                g.state = GameState::PlayerNameMenuTransition;
                assert(g.player_info@.drop_last() =~= old(g).player_info@);
            },
            None => {},
        },
        _ => {},
    }
}

/// Whether wizard `k` has taken its place: it has a piece of its own, new
/// to the arena, that stands on top of the wizard's starting square.
pub open spec fn seated(pre: Game, post: Game, k: int) -> bool {
    let before = pre.player_info[k];
    let after = post.player_info[k];
    let pos = start_positions(pre.players as int)[k];
    &&& after == (Player { handle: after.handle, ..before })
    &&& after.handle matches Some(e)
    &&& !pre.world@.contains_key(e)
    &&& post.world@.contains_key(e)
    &&& post.world@[e] == before.piece()
    &&& post.board@.has(e)
    &&& post.board@.positions[e] == pos
    &&& post.board@.stacks[pos] == pre.board@.stacks[pos].push(e)
}

/// Whether `e` is the piece of one of the first `n` wizards.
pub open spec fn is_wizard_upto(g: Game, e: Entity, n: int) -> bool {
    exists|k: int| 0 <= k < n && (#[trigger] g.player_info[k]).handle == Some(e)
}

/// Whether `pos` is the starting square of one of the first `n` wizards.
pub open spec fn is_start_upto(players: int, pos: Vec2I, n: int) -> bool {
    exists|k: int| 0 <= k < n && #[trigger] start_positions(players)[k] == pos
}

/// Whether the first `n` wizards have taken their places and nothing else
/// has changed: every one of them is seated, in the order of the wizards
/// each was reported as placed, and but for their pieces the arena and the
/// board are as before.
pub open spec fn seated_upto(pre: Game, post: Game, events: Seq<GameEvent>, n: int) -> bool {
    let starts = start_positions(pre.players as int);
    &&& post.player_info.len() == pre.player_info.len()
    &&& forall|k: int| 0 <= k < n ==> #[trigger] seated(pre, post, k)
    &&& forall|k: int|
        n <= k < pre.player_info.len() ==> #[trigger] post.player_info[k] == pre.player_info[k]
    &&& forall|e: Entity| #[trigger]
        pre.world@.contains_key(e) ==> post.world@.contains_key(e) && post.world@[e]
            == pre.world@[e]
    &&& forall|e: Entity| #[trigger]
        post.world@.contains_key(e) ==> pre.world@.contains_key(e) || is_wizard_upto(post, e, n)
    &&& forall|e: Entity| #[trigger]
        pre.board@.has(e) ==> post.board@.has(e) && post.board@.positions[e]
            == pre.board@.positions[e]
    &&& forall|e: Entity| #[trigger]
        post.board@.has(e) ==> pre.board@.has(e) || is_wizard_upto(post, e, n)
    &&& forall|pos: Vec2I|
        on_board(pos) && !is_start_upto(pre.players as int, pos, n) ==> #[trigger] post.board@.stacks[pos]
            == pre.board@.stacks[pos]
    &&& events.len() == n
    &&& forall|k: int|
        0 <= k < n ==> #[trigger] events[k] == GameEvent::Put(
            BoardPutEntity { entity: post.player_info[k].handle.unwrap(), pos: starts[k] },
        )
}

/// What follows the entry of a wizard: the name screen again while
/// wizards are missing; once all are entered, every wizard gets its piece
/// on its starting square and the first wizard gets the menu.
pub open spec fn play_begun(pre: Game, post: Game, events: Seq<GameEvent>) -> bool {
    if pre.players != pre.player_info.len() {
        &&& post == (Game { state: GameState::PlayerNameMenu, ..pre })
        &&& events =~= Seq::<GameEvent>::empty()
    } else {
        &&& post == (Game {
            state: GameState::TurnMenu,
            player_info: post.player_info,
            world: post.world,
            board: post.board,
            ..pre
        })
        &&& seated_upto(pre, post, events, pre.players as int)
    }
}

/// After a wizard was entered: goes back to the name screen, or starts the
/// play.
pub fn player_name_menu_transition(g: &mut Game) -> (events: Vec<GameEvent>)
    requires
        old(g).wf(),
        old(g).state is PlayerNameMenuTransition,
        old(g).world.room() >= old(g).players,
    ensures
        final(g).wf(),
        final(g).world.room() >= old(g).world.room() - old(g).players,
        play_begun(*old(g), *final(g), events@),
{
    let mut events: Vec<GameEvent> = Vec::new();
    if g.players as usize != g.player_info.len() {
        g.state = GameState::PlayerNameMenu;
        return events;
    }
    let positions = get_start_positions(g.players as usize).unwrap();
    let n = g.player_info.len();
    g.state = GameState::TurnMenu;
    let mut i: usize = 0;
    while i < n
        invariant
            i <= n,
            n == old(g).players,
            n == g.player_info.len(),
            old(g).wf(),
            *g == (Game {
                state: GameState::TurnMenu,
                player_info: g.player_info,
                world: g.world,
                board: g.board,
                ..*old(g)
            }),
            g.board.wf(),
            g.world.wf(),
            g.pieces_alive(),
            g.world.room() == old(g).world.room() - i,
            old(g).world.room() >= n,
            positions@ == start_positions(n as int),
            positions.len() == n,
            positions@.no_duplicates(),
            forall|k: int| 0 <= k < positions.len() ==> on_board(#[trigger] positions[k]),
            seated_upto(*old(g), *g, events@, i as int),
        decreases n - i,
    {
        let pos = positions[i];
        let ghost before = *g;
        let ghost reported = events@;
        g.player_info[i].spawn(&mut g.world);
        let entity = g.player_info[i].handle.unwrap();
        g.board.put_entity(pos, entity);
        events.push(GameEvent::Put(BoardPutEntity { entity, pos }));
        proof {
            let pre = *old(g);
            let next = i + 1;
            assert(seated(pre, *g, i as int)) by {
                assert(!is_start_upto(pre.players as int, pos, i as int)) by {
                    if is_start_upto(pre.players as int, pos, i as int) {
                        let k = choose|k: int|
                            0 <= k < i && #[trigger] start_positions(pre.players as int)[k] == pos;
                        assert(positions[k] == positions[i as int]);
                    }
                }
                assert(before.board@.stacks[pos] == pre.board@.stacks[pos]);
                assert(!pre.world@.contains_key(entity)) by {
                    if pre.world@.contains_key(entity) {
                        assert(before.world@.contains_key(entity));
                    }
                }
            }
            assert forall|k: int| 0 <= k < next implies #[trigger] seated(pre, *g, k) by {
                if k < i {
                    assert(seated(pre, before, k));
                    assert(g.player_info[k] == before.player_info[k]);
                    assert(positions[k] != positions[i as int]);
                    let e = before.player_info[k].handle.unwrap();
                    assert(before.world@.contains_key(e));
                    assert(e != entity);
                }
            }
            assert forall|e: Entity| #[trigger] g.world@.contains_key(e) implies pre.world@.contains_key(
                e,
            ) || is_wizard_upto(*g, e, next as int) by {
                if e == entity {
                    assert(g.player_info[i as int].handle == Some(e));
                } else {
                    assert(before.world@.contains_key(e));
                    if !pre.world@.contains_key(e) {
                        let k = choose|k: int|
                            0 <= k < i && (#[trigger] before.player_info[k]).handle == Some(e);
                        assert(g.player_info[k].handle == Some(e));
                    }
                }
            }
            assert forall|e: Entity| #[trigger] g.board@.has(e) implies pre.board@.has(e)
                || is_wizard_upto(*g, e, next as int) by {
                if e == entity {
                    assert(g.player_info[i as int].handle == Some(e));
                } else {
                    assert(before.board@.has(e));
                    if !pre.board@.has(e) {
                        let k = choose|k: int|
                            0 <= k < i && (#[trigger] before.player_info[k]).handle == Some(e);
                        assert(g.player_info[k].handle == Some(e));
                    }
                }
            }
            assert forall|e: Entity| #[trigger] pre.board@.has(e) implies g.board@.has(e)
                && g.board@.positions[e] == pre.board@.positions[e] by {
                assert(before.board@.has(e));
                assert(before.world@.contains_key(e));
            }
            assert forall|p: Vec2I|
                on_board(p) && !is_start_upto(pre.players as int, p, next as int) implies #[trigger] g.board@.stacks[p]
                == pre.board@.stacks[p] by {
                assert(start_positions(pre.players as int)[i as int] == pos);
                assert(p != pos);
                assert(!is_start_upto(pre.players as int, p, i as int)) by {
                    if is_start_upto(pre.players as int, p, i as int) {
                        let k = choose|k: int|
                            0 <= k < i && #[trigger] start_positions(pre.players as int)[k] == p;
                        assert(start_positions(pre.players as int)[k] == p);
                    }
                }
                assert(before.board@.stacks[p] == pre.board@.stacks[p]);
            }
            assert forall|k: int| 0 <= k < next implies #[trigger] events@[k] == GameEvent::Put(
                BoardPutEntity {
                    entity: g.player_info[k].handle.unwrap(),
                    pos: start_positions(pre.players as int)[k],
                },
            ) by {
                if k < i {
                    assert(events@[k] == reported[k]);
                    assert(g.player_info[k] == before.player_info[k]);
                }
            }
            assert forall|e: Entity| #[trigger] g.board@.has(e) implies g.world@.contains_key(e) by {
                if e != entity {
                    assert(before.board@.has(e));
                }
            }
        }
        i += 1;
    }
    proof {
        assert forall|k: int| 0 <= k < g.player_info.len() implies (#[trigger] g.player_info[k]).spells.wf() by {
            assert(seated(*old(g), *g, k));
        }
    }
    events
}

} // verus!
