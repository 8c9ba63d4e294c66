use mayhem_rs::cursor::{PositionCursorOnEntity, CURSOR_BOX};
use mayhem_rs::display::Color;
use mayhem_rs::game::{Game, GameEvent, Input, Message};
use mayhem_rs::gamestate::GameState;
use mayhem_rs::player::{spells_from_picks, Player};
use mayhem_rs::screen::menu::wizard_color;
use mayhem_rs::screen::turnmenu::{turn_menu_choose_spell_keyboard, TurnMenuEvent};
use mayhem_rs::spell::{load_all_spells, ASpell};
use mayhem_rs::creature::Creature;
use mayhem_rs::turn::{direction_of, handle_input};
use mayhem_rs::cursor::Direction;
use mayhem_rs::vec::Vec2I;

fn creature(name: &str, can_be_illusion: bool) -> Creature {
    Creature {
        name: name.to_string(),
        sprite_index: 20,
        entity: None,
        movement: 4,
        flying: false,
        combat: 5,
        ranged_combat: 0,
        range: 0,
        defence: 3,
        mountable: false,
        can_be_illusion,
        law_chaos: 0,
        casting_chance: 70,
        manoeuvre: 6,
        magical_resistance: 2,
        color_r: 10,
        color_g: 20,
        color_b: 30,
    }
}

fn fresh() -> Game {
    Game::new(load_all_spells(vec![creature("Bat", true), creature("Wall", false)]))
}

fn key(g: &mut Game, c: char) -> Vec<GameEvent> {
    handle_input(g, Input::Char(c))
}

fn tick(g: &mut Game) -> Vec<GameEvent> {
    handle_input(g, Input::Tick)
}

fn write_name(g: &mut Game, name: &str) {
    for c in name.chars() {
        assert!(key(g, c).is_empty());
    }
}

fn enter_wizard(g: &mut Game, name: &str, computer: char, figure: char, colour: char) {
    assert_eq!(g.state, GameState::PlayerNameMenu);
    tick(g);
    assert!(g.capture.init);
    write_name(g, name);
    handle_input(g, Input::Enter);
    assert!(g.capture.name.is_some());
    key(g, computer);
    key(g, figure);
    key(g, colour);
    assert_eq!(g.state, GameState::PlayerNameMenuTransition);
}

fn seated() -> Game {
    let mut g = fresh();
    key(&mut g, '2');
    key(&mut g, '1');
    enter_wizard(&mut g, "Merlin", 'n', '3', '1');
    tick(&mut g);
    enter_wizard(&mut g, "Morgana", 'y', '8', '2');
    tick(&mut g);
    assert_eq!(g.state, GameState::TurnMenu);
    g
}

#[test]
fn new_game_starts_on_the_first_screen() {
    let g = fresh();
    assert_eq!(g.state, GameState::InitialMenu);
    assert_eq!(GameState::default(), GameState::InitialMenu);
    assert_eq!(g.players, 0);
    assert_eq!(g.ai_level, 0);
    assert!(g.player_info.is_empty());
    assert_eq!(g.allspells.len(), 23);
    assert!(!g.cursor.visible);
    assert_eq!(g.cursor.cursor, CURSOR_BOX);
}

#[test]
fn first_screen_takes_the_numbers() {
    let mut g = fresh();
    for c in ['1', '9', '0', 'x', ' '] {
        assert!(key(&mut g, c).is_empty());
        assert_eq!(g.players, 0);
        assert_eq!(g.state, GameState::InitialMenu);
    }
    assert!(tick(&mut g).is_empty());
    assert!(key(&mut g, '8').is_empty());
    assert_eq!(g.players, 8);
    assert_eq!(g.state, GameState::InitialMenu);
    assert!(key(&mut g, '9').is_empty());
    assert_eq!(g.state, GameState::InitialMenu);
    assert_eq!(key(&mut g, '1'), vec![GameEvent::Text(None)]);
    assert_eq!(g.players, 8);
    assert_eq!(g.ai_level, 1);
    assert_eq!(g.state, GameState::PlayerNameMenu);
}

#[test]
fn help_pages_come_and_go() {
    let mut g = fresh();
    assert_eq!(
        key(&mut g, 'h'),
        vec![GameEvent::Text(None), GameEvent::Text(Some(Message::HelpPrompt))]
    );
    assert_eq!(g.state, GameState::Help);
    let pages = [
        ('1', GameState::HelpKeys),
        ('2', GameState::HelpSpells),
        ('4', GameState::HelpUndead),
        ('5', GameState::HelpMounts),
        ('6', GameState::HelpVictory),
    ];
    for (c, page) in pages {
        assert_eq!(
            key(&mut g, c),
            vec![GameEvent::Text(None), GameEvent::Text(Some(Message::PressAnyKeyToContinue))]
        );
        assert_eq!(g.state, page);
        assert!(tick(&mut g).is_empty());
        assert_eq!(g.state, page);
        assert_eq!(
            key(&mut g, 'q'),
            vec![GameEvent::Text(None), GameEvent::Text(Some(Message::HelpPrompt))]
        );
        assert_eq!(g.state, GameState::Help);
    }
    assert!(key(&mut g, '7').is_empty());
    assert_eq!(g.state, GameState::Help);
    key(&mut g, '3');
    assert_eq!(g.state, GameState::HelpCombat);
    handle_input(&mut g, Input::Enter);
    assert_eq!(g.state, GameState::HelpRangedCombat);
    key(&mut g, ' ');
    assert_eq!(g.state, GameState::Help);
    assert_eq!(
        key(&mut g, '0'),
        vec![GameEvent::Text(None), GameEvent::Text(Some(Message::PressHForHelp))]
    );
    assert_eq!(g.state, GameState::InitialMenu);
    key(&mut g, 'H');
    assert_eq!(g.state, GameState::Help);
}

#[test]
fn name_is_typed_and_corrected() {
    let mut g = fresh();
    key(&mut g, '2');
    key(&mut g, '3');
    handle_input(&mut g, Input::Enter);
    assert!(g.capture.init);
    handle_input(&mut g, Input::Enter);
    assert!(g.capture.name.is_none());
    key(&mut g, '\u{7f}');
    assert!(g.typed.is_empty());
    write_name(&mut g, "Mer-l!i_n");
    assert_eq!(g.typed, vec!['M', 'e', 'r', 'l', 'i', 'n']);
    key(&mut g, '\u{7f}');
    key(&mut g, '\u{7f}');
    write_name(&mut g, "g 2");
    assert_eq!(g.typed.iter().collect::<String>(), "Merlg 2");
    write_name(&mut g, "abcdefghij");
    assert_eq!(g.typed.iter().collect::<String>(), "Merlg 2abcde");
    assert_eq!(g.typed.len(), 12);
    key(&mut g, '\u{7f}');
    assert_eq!(g.typed.len(), 11);
    handle_input(&mut g, Input::Enter);
    assert_eq!(g.capture.name, Some("Merlg 2abcd".to_string()));
    assert!(g.typed.is_empty());
    assert_eq!(g.state, GameState::PlayerNameMenu);
}

#[test]
fn wizard_is_entered_step_by_step() {
    let mut g = fresh();
    key(&mut g, '2');
    key(&mut g, '3');
    tick(&mut g);
    write_name(&mut g, "Merlin");
    handle_input(&mut g, Input::Enter);
    key(&mut g, '1');
    assert!(g.capture.computer_controlled.is_none());
    key(&mut g, 'Y');
    assert_eq!(g.capture.computer_controlled, Some(true));
    key(&mut g, '0');
    key(&mut g, '9');
    key(&mut g, 'n');
    assert!(g.capture.character_icon.is_none());
    key(&mut g, '5');
    assert_eq!(g.capture.character_icon, Some(5));
    key(&mut g, '9');
    assert_eq!(g.state, GameState::PlayerNameMenu);
    assert!(g.player_info.is_empty());
    key(&mut g, '4');
    assert_eq!(g.state, GameState::PlayerNameMenuTransition);
    assert_eq!(g.player_info.len(), 1);
    let p = &g.player_info[0];
    assert_eq!(p.name, "Merlin");
    assert!(p.computer_controlled);
    assert_eq!(p.character_icon, 5);
    assert_eq!(p.color, Color::Aqua);
    assert_eq!(p.spells.len(), 14);
    assert_eq!(p.spells.get_spell(0).name(), "Disbelieve");
    assert!(p.handle.is_none());
    assert!((1..=5).contains(&p.combat));
    assert!(!g.capture.init);
    assert!(g.capture.name.is_none());
    assert!(g.capture.computer_controlled.is_none());
    assert!(g.capture.character_icon.is_none());
    assert!(tick(&mut g).is_empty());
    assert_eq!(g.state, GameState::PlayerNameMenu);
    assert!(g.board._has_entity(mayhem_rs::entity::Entity::from_raw(0)) == false);
}

#[test]
fn play_begins_when_all_are_entered() {
    let g = seated();
    assert_eq!(g.player_info.len(), 2);
    assert_eq!(g.player_info[0].name, "Merlin");
    assert_eq!(g.player_info[1].name, "Morgana");
    assert!(!g.player_info[0].computer_controlled);
    assert!(g.player_info[1].computer_controlled);
    assert_eq!(g.player_info[0].color, Color::Red);
    assert_eq!(g.player_info[1].color, Color::Purple);
    let one = g.player_info[0].handle.unwrap();
    let two = g.player_info[1].handle.unwrap();
    assert_eq!(g.board.get_entity_pos(one), Vec2I::new(1, 5));
    assert_eq!(g.board.get_entity_pos(two), Vec2I::new(13, 5));
    assert_eq!(g.world.get(one).unwrap().sprite, 172);
    assert_eq!(g.world.get(two).unwrap().sprite, 177);
    assert_eq!(g.world.get(two).unwrap().color, Color::Purple);
    assert_eq!(g.player_turn, 0);
}

#[test]
fn seating_reports_every_wizard() {
    let mut g = fresh();
    key(&mut g, '3');
    key(&mut g, '1');
    enter_wizard(&mut g, "A", 'n', '1', '1');
    tick(&mut g);
    enter_wizard(&mut g, "B", 'n', '2', '2');
    tick(&mut g);
    enter_wizard(&mut g, "C", 'n', '3', '3');
    let events = tick(&mut g);
    let squares = [Vec2I::new(7, 8), Vec2I::new(1, 1), Vec2I::new(13, 1)];
    assert_eq!(events.len(), 3);
    for (i, ev) in events.iter().enumerate() {
        match ev {
            GameEvent::Put(put) => {
                assert_eq!(Some(put.entity), g.player_info[i].handle);
                assert_eq!(put.pos, squares[i]);
                assert_eq!(g.board.get_entity(squares[i]), Some(put.entity));
            }
            _ => panic!("not a placement"),
        }
    }
    assert_eq!(g.state, GameState::TurnMenu);
}

#[test]
fn wizard_colours_are_tabled() {
    let expected = [
        Color::Red,
        Color::Purple,
        Color::Green,
        Color::Aqua,
        Color::MidYellow,
        Color::Yellow,
        Color::Grey,
        Color::White,
    ];
    for (i, colour) in expected.iter().enumerate() {
        assert_eq!(wizard_color(i as u8 + 1), *colour);
    }
}

#[test]
fn turn_menu_leads_to_its_screens() {
    let mut g = seated();
    assert!(key(&mut g, '5').is_empty());
    assert!(tick(&mut g).is_empty());
    assert_eq!(
        key(&mut g, '1'),
        vec![GameEvent::Text(None), GameEvent::Text(Some(Message::PressZeroToExit))]
    );
    assert_eq!(g.state, GameState::TurnMenuExamineSpell);
    assert!(key(&mut g, 'o').is_empty());
    assert_eq!(
        key(&mut g, 'n'),
        vec![GameEvent::Text(None), GameEvent::Text(Some(Message::AnyKeyToExit))]
    );
    assert_eq!(g.state, GameState::TurnMenuExamineOneSpell);
    assert_eq!(g.examined_spell, Some(13));
    assert!(tick(&mut g).is_empty());
    assert_eq!(
        key(&mut g, ' '),
        vec![GameEvent::Text(None), GameEvent::Text(Some(Message::PressZeroToExit))]
    );
    assert_eq!(g.state, GameState::TurnMenuExamineSpell);
    key(&mut g, 'A');
    assert_eq!(g.examined_spell, Some(0));
    key(&mut g, 'x');
    assert_eq!(key(&mut g, '0'), vec![GameEvent::Text(None)]);
    assert_eq!(g.state, GameState::TurnMenu);

    let one = g.player_info[0].handle.unwrap();
    assert_eq!(
        key(&mut g, '3'),
        vec![
            GameEvent::Text(None),
            GameEvent::Text(Some(Message::PressZeroToExit)),
            GameEvent::CursorOn(PositionCursorOnEntity(one)),
        ]
    );
    assert_eq!(g.state, GameState::TurnMenuExamineBoard);
    assert!(g.cursor.visible);
    assert!(g.cursor.hide_till_moved);
    assert_eq!(g.cursor.get_pos_v(), Vec2I::new(1, 5));
    assert_eq!(key(&mut g, 'd'), vec![GameEvent::Text(None)]);
    assert_eq!(g.cursor.get_pos_v(), Vec2I::new(2, 5));
    assert_eq!(key(&mut g, 'a'), vec![GameEvent::Text(Some(Message::Describe(one)))]);
    assert_eq!(key(&mut g, '0'), vec![GameEvent::Text(None)]);
    assert_eq!(g.state, GameState::TurnMenu);
    assert!(!g.cursor.visible);
}

#[test]
fn spell_is_chosen_by_its_letter() {
    let mut g = seated();
    g.player_info[0].spells.spells = spells_from_picks(&g.allspells, &vec![12, 22, 21]);
    key(&mut g, '2');
    assert_eq!(g.state, GameState::TurnMenuSelectSpell);
    assert!(key(&mut g, 'e').is_empty());
    assert!(key(&mut g, 'E').is_empty());
    assert!(g.player_info[0].spells.chosen_spell.is_none());
    assert_eq!(key(&mut g, 'b'), vec![GameEvent::Text(None)]);
    assert_eq!(g.state, GameState::TurnMenu);
    assert_eq!(g.player_info[0].spells.chosen_spell, Some(1));
    assert!(!g.pick_illusion);

    key(&mut g, '2');
    assert_eq!(key(&mut g, 'C'), vec![GameEvent::Text(None)]);
    assert_eq!(g.player_info[0].spells.chosen_spell, Some(2));
    assert_eq!(g.state, GameState::TurnMenu);

    key(&mut g, '2');
    assert_eq!(key(&mut g, 'd'), vec![GameEvent::Text(Some(Message::IllusionPrompt))]);
    assert_eq!(g.state, GameState::TurnMenuSelectSpell);
    assert_eq!(g.player_info[0].spells.chosen_spell, Some(3));
    assert!(g.pick_illusion);
    assert!(key(&mut g, 'a').is_empty());
    assert!(key(&mut g, '0').is_empty());
    assert_eq!(g.player_info[0].spells.chosen_spell, Some(3));
    assert_eq!(g.state, GameState::TurnMenuSelectSpell);
    assert_eq!(key(&mut g, 'Y'), vec![GameEvent::Text(None)]);
    assert!(g.player_info[0].spells.illusion);
    assert!(!g.pick_illusion);
    assert_eq!(g.state, GameState::TurnMenu);

    key(&mut g, '2');
    key(&mut g, 'D');
    key(&mut g, 'n');
    assert!(!g.player_info[0].spells.illusion);
    assert_eq!(g.state, GameState::TurnMenu);
    assert!(g.player_info[1].spells.chosen_spell.is_none());

    key(&mut g, '2');
    assert_eq!(key(&mut g, '0'), vec![GameEvent::Text(None)]);
    assert_eq!(g.state, GameState::TurnMenu);
    assert_eq!(g.player_info[0].spells.chosen_spell, Some(3));
}

#[test]
fn letters_pick_only_what_is_in_the_book() {
    let mut g = seated();
    g.player_info[0].spells.spells = spells_from_picks(&g.allspells, &vec![12, 22]);
    g.state = GameState::TurnMenuSelectSpell;
    let mut events = Vec::new();
    let picks = [
        ('A', Some(0)),
        ('a', Some(0)),
        ('c', Some(2)),
        ('C', Some(2)),
        ('d', None),
        ('D', None),
        ('@', None),
        ('`', None),
        ('1', None),
        ('z', None),
    ];
    for (c, pick) in picks {
        assert_eq!(
            turn_menu_choose_spell_keyboard(&mut g, c, &mut events),
            pick.map(TurnMenuEvent)
        );
        assert_eq!(g.state, GameState::TurnMenuSelectSpell);
    }
    assert!(events.is_empty());
    assert_eq!(turn_menu_choose_spell_keyboard(&mut g, '0', &mut events), None);
    assert_eq!(g.state, GameState::TurnMenu);
    assert_eq!(events, vec![GameEvent::Text(None)]);
}

#[test]
fn chosen_spell_is_told_when_it_is_cast() {
    let mut g = seated();
    g.player_info[0].spells.spells = spells_from_picks(&g.allspells, &vec![12]);
    g.player_info[0].spells.set_chosen(1);
    g.state = GameState::CastSpellSetup;
    g.cursor.set_pos(Vec2I::new(9, 9));
    let one = g.player_info[0].handle.unwrap();
    assert_eq!(
        tick(&mut g),
        vec![
            GameEvent::Text(Some(Message::ChosenSpell(0))),
            GameEvent::CursorOn(PositionCursorOnEntity(one)),
        ]
    );
    assert_eq!(g.state, GameState::CastSpell);
    assert_eq!(g.cursor.get_pos_v(), Vec2I::new(1, 5));
    assert!(g.cursor.hide_till_moved);
    assert!(tick(&mut g).is_empty());
    assert_eq!(g.state, GameState::CastSpell);
}

#[test]
fn keys_have_their_directions() {
    let expected = [
        ('a', Direction::Left),
        ('D', Direction::Right),
        ('w', Direction::Up),
        ('Q', Direction::UpLeft),
        ('e', Direction::UpRight),
        ('X', Direction::Down),
        ('z', Direction::DownLeft),
        ('C', Direction::DownRight),
    ];
    for (c, d) in expected {
        assert_eq!(direction_of(c), Some(d));
    }
    for c in ['s', 'k', '0', ' ', 'b'] {
        assert_eq!(direction_of(c), None);
    }
}

#[test]
fn player_with_stats_can_be_entered_by_hand() {
    let mut g = fresh();
    g.players = 2;
    g.player_info.push(Player::with_stats("A".to_string(), false, 1, Color::Red, 1, 1, 3, 6));
    g.state = GameState::PlayerNameMenuTransition;
    assert!(tick(&mut g).is_empty());
    assert_eq!(g.state, GameState::PlayerNameMenu);
}
