use mayhem_rs::board::{BoardKill, BoardMove, BoardPutEntity, MoveableComponent};
use mayhem_rs::creature::Creature;
use mayhem_rs::cursor::{CursorMovedEvent, PositionCursorOnEntity, CURSOR_BOX, CURSOR_FLY, CURSOR_SPELL, CURSOR_TARGET};
use mayhem_rs::display::{Color, StartExplosion};
use mayhem_rs::entity::{Entity, Piece};
use mayhem_rs::game::{AttackingComponent, Game, GameEvent, Input, Message};
use mayhem_rs::gamestate::GameState;
use mayhem_rs::player::{spells_from_picks, CastFailed, Player};
use mayhem_rs::screen::board::{
    attack_do, attack_succeeds, board_describe_piece, decide_move, kill, move_moving_keyboard,
    MoveDecision,
};
use mayhem_rs::screen::spellcasting::{cast_spell_keyboard, decide_cast, CastDecision};
use mayhem_rs::spell::{load_all_spells, ASpell};
use mayhem_rs::system::{BelongsToPlayer, CanAttack, CanDefend, Named, RangedCombat};
use mayhem_rs::turn::handle_input;
use mayhem_rs::vec::Vec2I;

fn creature(name: &str) -> Creature {
    Creature {
        name: name.to_string(),
        sprite_index: 20,
        entity: None,
        movement: 4,
        flying: false,
        combat: 5,
        ranged_combat: 0,
        range: 0,
        defence: 3,
        mountable: false,
        can_be_illusion: true,
        law_chaos: 0,
        casting_chance: 70,
        manoeuvre: 6,
        magical_resistance: 2,
        color_r: 10,
        color_g: 20,
        color_b: 30,
    }
}

/// Two wizards, seated at (1,5) and (13,5), with the first wizard's menu up.
fn game() -> Game {
    let mut g = Game::new(load_all_spells(vec![creature("Bat"), creature("Lion")]));
    g.players = 2;
    g.player_info.push(Player::with_stats("One".to_string(), false, 1, Color::Red, 1, 1, 3, 6));
    g.player_info.push(Player::with_stats("Two".to_string(), false, 2, Color::Blue, 1, 1, 3, 6));
    g.state = GameState::PlayerNameMenuTransition;
    let events = handle_input(&mut g, Input::Tick);
    assert_eq!(events.len(), 2);
    assert_eq!(g.state, GameState::TurnMenu);
    g
}

fn piece(name: &str, owner: Option<Entity>, movement: u8, flying: bool) -> Piece {
    Piece {
        named: Named { name: name.to_string() },
        moveable: MoveableComponent { movement, flying },
        belongs: owner.map(|player_entity| BelongsToPlayer { player_entity }),
        attack: Some(CanAttack { combat: 5 }),
        defend: Some(CanDefend { defence: 3 }),
        ranged: None,
        creature: None,
        animation: None,
        sprite: 0,
        color: Color::White,
        has_moved: false,
    }
}

fn place(g: &mut Game, p: Piece, pos: Vec2I) -> Entity {
    let e = g.world.spawn(p);
    g.board.put_entity(pos, e);
    e
}

fn key(g: &mut Game, c: char) -> Vec<GameEvent> {
    handle_input(g, Input::Char(c))
}

fn wizard(g: &Game, i: usize) -> Entity {
    g.player_info[i].handle.unwrap()
}

fn moving(g: &mut Game, turn: u8) {
    g.player_turn = turn;
    g.state = GameState::MoveChoose;
}

#[test]
fn wizards_are_seated_on_their_squares() {
    let g = game();
    let one = wizard(&g, 0);
    let two = wizard(&g, 1);
    assert_ne!(one, two);
    assert_eq!(g.board.get_entity_pos(one), Vec2I::new(1, 5));
    assert_eq!(g.board.get_entity_pos(two), Vec2I::new(13, 5));
    assert_eq!(g.world.get(one).unwrap().named.name, "One");
    assert_eq!(g.world.get(two).unwrap().sprite, 171);
    assert_eq!(g.player_turn, 0);
}

#[test]
fn magic_bolt_reaches_six_squares() {
    let mut g = game();
    g.player_info[0].spells.spells = spells_from_picks(&g.allspells, &vec![12]);
    g.player_info[0].spells.set_chosen(1);
    g.state = GameState::CastSpell;
    g.cursor.set_pos(Vec2I::new(13, 5));
    let events = key(&mut g, 's');
    assert_eq!(
        events,
        vec![
            GameEvent::CastFailed(CastFailed::OutOfRange),
            GameEvent::Text(Some(Message::OutOfRange)),
        ]
    );
    assert_eq!(g.state, GameState::CastSpell);
    assert_eq!(g.player_turn, 0);
    assert_eq!(g.player_info[0].spells.len(), 2);
    assert_eq!(g.player_info[0].spells.chosen_spell, Some(1));
    assert!(g.cursor.hide_till_moved);

    g.cursor.set_pos(Vec2I::new(8, 5));
    assert_eq!(decide_cast(&g, Some('s')), CastDecision::OutOfRange);
    g.cursor.set_pos(Vec2I::new(7, 5));
    assert_eq!(
        decide_cast(&g, Some('s')),
        CastDecision::Cast(Vec2I::new(1, 5), Vec2I::new(7, 5))
    );
    g.cursor.set_pos(Vec2I::new(5, 9));
    assert_eq!(
        decide_cast(&g, Some('s')),
        CastDecision::Cast(Vec2I::new(1, 5), Vec2I::new(5, 9))
    );
    g.cursor.set_pos(Vec2I::new(6, 9));
    assert_eq!(decide_cast(&g, Some('s')), CastDecision::OutOfRange);
    assert_eq!(decide_cast(&g, Some('x')), CastDecision::Wait);
    assert_eq!(decide_cast(&g, None), CastDecision::Wait);

    g.cursor.set_pos(Vec2I::new(7, 5));
    let events = key(&mut g, 's');
    assert_eq!(events, vec![GameEvent::Cast(None)]);
    assert_eq!(g.state, GameState::CastSpellSetup);
    assert_eq!(g.player_turn, 1);
    assert_eq!(g.player_info[0].spells.len(), 1);
    assert!(g.player_info[0].spells.chosen_spell.is_none());
}

#[test]
fn wizard_without_a_spell_is_passed_over() {
    let mut g = game();
    g.state = GameState::CastSpell;
    assert_eq!(decide_cast(&g, Some('s')), CastDecision::Skip);
    let events = handle_input(&mut g, Input::Tick);
    assert!(events.is_empty());
    assert_eq!(g.state, GameState::CastSpellSetup);
    assert_eq!(g.player_turn, 1);
}

#[test]
fn summons_needs_a_free_square() {
    let mut g = game();
    g.player_info[0].spells.spells = spells_from_picks(&g.allspells, &vec![21]);
    g.player_info[0].spells.set_chosen(1);
    g.player_info[0].spells.illusion = true;
    g.state = GameState::CastSpell;
    let blocker = place(&mut g, piece("Rock", None, 0, false), Vec2I::new(2, 5));
    g.cursor.set_pos(Vec2I::new(2, 5));
    let events = key(&mut g, 's');
    assert_eq!(
        events,
        vec![
            GameEvent::CastFailed(CastFailed::NotThere),
            GameEvent::Text(Some(Message::NotThere)),
        ]
    );
    assert_eq!(g.state, GameState::CastSpell);
    assert_eq!(g.player_info[0].spells.len(), 2);
    assert_eq!(g.board.get_entity(Vec2I::new(2, 5)), Some(blocker));

    g.cursor.set_pos(Vec2I::new(3, 5));
    assert_eq!(decide_cast(&g, Some('s')), CastDecision::OutOfRange);

    g.cursor.set_pos(Vec2I::new(2, 6));
    let events = key(&mut g, 's');
    let bat = g.board.get_entity(Vec2I::new(2, 6)).unwrap();
    assert_eq!(
        events,
        vec![
            GameEvent::Put(BoardPutEntity { entity: bat, pos: Vec2I::new(2, 6) }),
            GameEvent::Cast(Some(bat)),
        ]
    );
    let one = wizard(&g, 0);
    let p = g.world.get(bat).unwrap();
    assert_eq!(p.named.name, "Bat");
    assert_eq!(p.belongs, Some(BelongsToPlayer { player_entity: one }));
    assert!(p.creature.unwrap().is_illusion);
    assert_eq!(g.player_info[0].creations, vec![bat]);
    assert_eq!(g.player_info[0].spells.len(), 1);
    assert!(!g.player_info[0].spells.illusion);
    assert_eq!(g.state, GameState::CastSpellSetup);
    assert_eq!(g.player_turn, 1);
}

#[test]
fn spell_without_range_is_cast_on_any_key() {
    let mut g = game();
    g.player_info[0].spells.spells = spells_from_picks(&g.allspells, &vec![20]);
    g.player_info[0].spells.set_chosen(1);
    g.state = GameState::CastSpell;
    g.cursor.set_pos(Vec2I::new(14, 9));
    let events = key(&mut g, 'p');
    assert_eq!(events, vec![GameEvent::Cast(None)]);
    let one = wizard(&g, 0);
    assert!(g.world.get(one).unwrap().moveable.flying);
    assert_eq!(g.world.get(one).unwrap().moveable.movement, 6);
    assert_eq!(g.player_info[0].spells.len(), 1);
}

#[test]
fn disbelieve_stays_in_the_book() {
    let mut g = game();
    g.player_info[0].spells.spells = spells_from_picks(&g.allspells, &vec![12]);
    g.player_info[0].spells.set_chosen(0);
    g.state = GameState::CastSpell;
    let events = handle_input(&mut g, Input::Enter);
    assert_eq!(events, vec![GameEvent::Cast(None)]);
    assert_eq!(g.player_info[0].spells.len(), 2);
    assert_eq!(g.player_info[0].spells.get_spell(0).name(), "Disbelieve");
    assert!(g.player_info[0].spells.chosen_spell.is_none());
}

#[test]
fn flying_jump_out_of_range_is_refused() {
    let mut g = game();
    let one = wizard(&g, 0);
    let bat = place(&mut g, piece("Bat", Some(one), 4, true), Vec2I::new(5, 5));
    moving(&mut g, 0);
    g.cursor.set_pos(Vec2I::new(5, 5));
    let events = key(&mut g, 's');
    assert_eq!(
        events,
        vec![GameEvent::Text(Some(Message::MovementRange { movement: 4, flying: true }))]
    );
    assert_eq!(g.state, GameState::MoveMoving);
    assert_eq!(g.cursor.cursor, CURSOR_FLY);
    assert!(g.world.get(bat).unwrap().has_moved);
    for _ in 0..5 {
        assert!(key(&mut g, 'd').is_empty());
    }
    assert_eq!(g.cursor.get_pos_v(), Vec2I::new(10, 5));
    assert_eq!(decide_move(&g, Some('s'), None), MoveDecision::OutOfRange);
    let events = key(&mut g, 's');
    assert_eq!(events, vec![GameEvent::Text(Some(Message::OutOfRange))]);
    assert_eq!(g.state, GameState::MoveMoving);
    assert_eq!(g.board.get_entity_pos(bat), Vec2I::new(5, 5));
    assert_eq!(g.board.get_entity(Vec2I::new(5, 5)), Some(bat));
    assert!(!g.board.has_entity_at(Vec2I::new(10, 5)));
    assert!(g.world.get(bat).unwrap().has_moved);
    assert_eq!(g.moving.unwrap().movement_budget, 4);
    assert_eq!(g.moving.unwrap().steps, 0);
    assert!(g.cursor.hide_till_moved);

    key(&mut g, 'a');
    let events = key(&mut g, 's');
    assert_eq!(
        events,
        vec![
            GameEvent::Text(None),
            GameEvent::Move(BoardMove { entity: bat, from: Vec2I::new(5, 5), to: Vec2I::new(9, 5) }),
        ]
    );
    assert_eq!(g.state, GameState::MoveChoose);
    assert_eq!(g.board.get_entity_pos(bat), Vec2I::new(9, 5));
    assert!(g.moving.is_none());
    assert_eq!(g.cursor.cursor, CURSOR_BOX);
}

#[test]
fn flying_jump_counts_diagonals() {
    let mut g = game();
    let one = wizard(&g, 0);
    place(&mut g, piece("Bat", Some(one), 4, true), Vec2I::new(5, 5));
    moving(&mut g, 0);
    g.cursor.set_pos(Vec2I::new(5, 5));
    key(&mut g, 's');
    g.cursor.set_pos(Vec2I::new(8, 8));
    assert_eq!(
        decide_move(&g, Some('s'), None),
        MoveDecision::Step { to: Vec2I::new(8, 8), cost: 4 }
    );
    g.cursor.set_pos(Vec2I::new(9, 8));
    assert_eq!(decide_move(&g, Some('s'), None), MoveDecision::OutOfRange);
    g.cursor.set_pos(Vec2I::new(1, 5));
    assert_eq!(decide_move(&g, Some('s'), None), MoveDecision::Blocked);
    assert_eq!(decide_move(&g, Some('K'), None), MoveDecision::Cancel);
    assert_eq!(decide_move(&g, Some('d'), None), MoveDecision::Ignore);
    assert_eq!(decide_move(&g, None, None), MoveDecision::Ignore);
}

#[test]
fn melee_kills_on_a_winning_roll() {
    let mut g = game();
    let one = wizard(&g, 0);
    let two = wizard(&g, 1);
    let a = place(&mut g, piece("A", Some(one), 3, false), Vec2I::new(5, 5));
    let b = place(&mut g, piece("B", Some(two), 3, false), Vec2I::new(6, 5));
    moving(&mut g, 0);
    g.cursor.set_pos(Vec2I::new(5, 5));
    key(&mut g, 's');
    assert_eq!(g.state, GameState::MoveMoving);
    let events = key(&mut g, 'd');
    assert_eq!(
        events,
        vec![
            GameEvent::Text(None),
            GameEvent::Explosion(StartExplosion { at: Vec2I::new(6, 5), idx: 0 }),
        ]
    );
    assert_eq!(g.state, GameState::AttackDo);
    assert_eq!(
        g.attacking,
        Some(AttackingComponent { attacker: a, attackee: b, ranged: false })
    );
    assert_eq!(g.board.get_entity_pos(a), Vec2I::new(5, 5));
    assert!(handle_input(&mut g, Input::Tick).is_empty());
    assert!(key(&mut g, 's').is_empty());
    assert_eq!(g.state, GameState::AttackDo);

    let events = attack_do(&mut g, 7, 7);
    assert_eq!(events, vec![GameEvent::Kill(BoardKill { killer: a, killed: b })]);
    assert!(!g.board._has_entity(b));
    assert!(!g.world.contains(b));
    assert!(!g.board.has_entity_at(Vec2I::new(6, 5)));
    assert_eq!(g.board.get_entity_pos(a), Vec2I::new(5, 5));
    assert_eq!(g.state, GameState::MoveChoose);
    assert_eq!(g.player_turn, 0);
    assert!(g.attacking.is_none());
    assert!(g.moving.is_none());
    assert!(g.cursor.visible);
}

#[test]
fn melee_does_nothing_on_a_losing_roll() {
    let mut g = game();
    let one = wizard(&g, 0);
    let two = wizard(&g, 1);
    let a = place(&mut g, piece("A", Some(one), 3, false), Vec2I::new(5, 5));
    let b = place(&mut g, piece("B", Some(two), 3, false), Vec2I::new(6, 6));
    moving(&mut g, 0);
    g.cursor.set_pos(Vec2I::new(5, 5));
    key(&mut g, 's');
    key(&mut g, 'e');
    assert_eq!(g.state, GameState::AttackDo);
    let events = attack_do(&mut g, 1, 4);
    assert!(events.is_empty());
    assert!(g.board._has_entity(b));
    assert!(g.world.contains(a));
    assert_eq!(g.board.get_entity_pos(b), Vec2I::new(6, 6));
    assert_eq!(g.state, GameState::MoveChoose);
}

#[test]
fn rolled_fight_ends_one_way_or_the_other() {
    let mut kills = 0;
    let mut misses = 0;
    for _ in 0..200 {
        let mut g = game();
        let one = wizard(&g, 0);
        let two = wizard(&g, 1);
        let a = place(&mut g, piece("A", Some(one), 3, false), Vec2I::new(5, 5));
        let b = place(&mut g, piece("B", Some(two), 3, false), Vec2I::new(6, 5));
        g.world.get_mut(b).defend = Some(CanDefend { defence: 5 });
        moving(&mut g, 0);
        g.cursor.set_pos(Vec2I::new(5, 5));
        key(&mut g, 's');
        key(&mut g, 'd');
        let events = handle_input(&mut g, Input::ExplosionFinished);
        assert_eq!(g.state, GameState::MoveChoose);
        if events.is_empty() {
            misses += 1;
            assert!(g.board._has_entity(b));
        } else {
            kills += 1;
            assert_eq!(events, vec![GameEvent::Kill(BoardKill { killer: a, killed: b })]);
            assert!(!g.board._has_entity(b));
        }
    }
    assert!(kills > 0);
    assert!(misses > 0);
}

#[test]
fn strongest_attacker_always_wins_and_weakest_never() {
    for _ in 0..100 {
        let mut g = game();
        let one = wizard(&g, 0);
        let two = wizard(&g, 1);
        let a = place(&mut g, piece("A", Some(one), 3, false), Vec2I::new(5, 5));
        let b = place(&mut g, piece("B", Some(two), 3, false), Vec2I::new(6, 5));
        g.world.get_mut(a).attack = Some(CanAttack { combat: 11 });
        moving(&mut g, 0);
        g.cursor.set_pos(Vec2I::new(5, 5));
        key(&mut g, 's');
        key(&mut g, 'd');
        assert_eq!(handle_input(&mut g, Input::ExplosionFinished).len(), 1);

        let mut g = game();
        let one = wizard(&g, 0);
        let two = wizard(&g, 1);
        let a = place(&mut g, piece("A", Some(one), 3, false), Vec2I::new(5, 5));
        let b = place(&mut g, piece("B", Some(two), 3, false), Vec2I::new(6, 5));
        g.world.get_mut(a).attack = Some(CanAttack { combat: 0 });
        g.world.get_mut(b).defend = Some(CanDefend { defence: 9 });
        moving(&mut g, 0);
        g.cursor.set_pos(Vec2I::new(5, 5));
        key(&mut g, 's');
        key(&mut g, 'd');
        assert!(handle_input(&mut g, Input::ExplosionFinished).is_empty());
    }
}

#[test]
fn fight_is_decided_by_the_sums() {
    assert!(attack_succeeds(5, 7, 3, 7));
    assert!(attack_succeeds(5, 1, 3, 3));
    assert!(!attack_succeeds(5, 1, 3, 4));
    assert!(!attack_succeeds(1, 1, 5, 9));
    assert!(attack_succeeds(0, 9, 0, 9));
    assert!(attack_succeeds(255, 9, 255, 9));
    assert!(!attack_succeeds(255, 1, 255, 2));
    assert!(attack_succeeds(255, 255, 255, 255));
    for a in 1..=9u8 {
        for d in 1..=9u8 {
            assert_eq!(attack_succeeds(5, a, 3, d), 5 + a >= 3 + d);
            assert_eq!(attack_succeeds(5, a, 3, d), attack_succeeds(5, a, 3, d));
        }
    }
}

#[test]
fn piece_without_defence_is_not_attacked() {
    let mut g = game();
    let one = wizard(&g, 0);
    let a = place(&mut g, piece("A", Some(one), 3, false), Vec2I::new(12, 5));
    moving(&mut g, 0);
    g.cursor.set_pos(Vec2I::new(12, 5));
    key(&mut g, 's');
    let events = key(&mut g, 'd');
    assert!(events.is_empty());
    assert_eq!(g.state, GameState::MoveMoving);
    assert!(g.attacking.is_none());
    assert_eq!(g.board.get_entity_pos(a), Vec2I::new(12, 5));
    assert_eq!(g.cursor.get_pos_v(), Vec2I::new(12, 5));
    assert_eq!(g.moving.unwrap().movement_budget, 3);
}

#[test]
fn walking_spends_the_allowance_step_by_step() {
    let mut g = game();
    let one = wizard(&g, 0);
    let a = place(&mut g, piece("A", Some(one), 3, false), Vec2I::new(5, 5));
    moving(&mut g, 0);
    g.cursor.set_pos(Vec2I::new(5, 5));
    let events = key(&mut g, 'S');
    assert_eq!(
        events,
        vec![GameEvent::Text(Some(Message::MovementRange { movement: 3, flying: false }))]
    );
    assert!(!g.cursor.visible);
    let mut spent = 0;
    for (i, (c, to)) in [('d', (6, 5)), ('e', (7, 6)), ('w', (7, 7))].iter().enumerate() {
        let from = g.board.get_entity_pos(a);
        let events = key(&mut g, *c);
        let to = Vec2I::new(to.0, to.1);
        assert_eq!(
            events,
            vec![GameEvent::Text(None), GameEvent::Move(BoardMove { entity: a, from, to })]
        );
        assert_eq!(g.board.get_entity_pos(a), to);
        spent += to.distance(from);
        assert!(spent <= 3);
        if i < 2 {
            assert_eq!(g.state, GameState::MoveMoving);
            assert_eq!(g.moving.unwrap().steps, spent);
            assert_eq!(g.moving.unwrap().movement_budget, 3 - spent);
        }
    }
    assert_eq!(spent, 3);
    assert_eq!(g.state, GameState::MoveChoose);
    assert!(g.moving.is_none());
    assert!(g.cursor.visible);
    assert!(g.world.get(a).unwrap().has_moved);

    let events = key(&mut g, 's');
    assert_eq!(events, vec![GameEvent::Text(Some(Message::NotEligibleToMove))]);
    assert_eq!(g.state, GameState::MoveChoose);
    let events = key(&mut g, 'd');
    assert_eq!(events, vec![GameEvent::Text(None)]);
    assert_eq!(g.board.get_entity_pos(a), Vec2I::new(7, 7));
}

#[test]
fn piece_without_allowance_does_not_move() {
    let mut g = game();
    let one = wizard(&g, 0);
    let a = place(&mut g, piece("Tree", Some(one), 0, false), Vec2I::new(5, 5));
    moving(&mut g, 0);
    g.cursor.set_pos(Vec2I::new(5, 5));
    key(&mut g, 's');
    assert_eq!(g.state, GameState::MoveMoving);
    let events = key(&mut g, 'd');
    assert_eq!(events, vec![GameEvent::Text(Some(Message::OutOfRange))]);
    assert_eq!(g.board.get_entity_pos(a), Vec2I::new(5, 5));
    assert_eq!(g.cursor.get_pos_v(), Vec2I::new(5, 5));
    assert_eq!(g.state, GameState::MoveMoving);
}

#[test]
fn piece_without_allowance_is_blocked_by_an_own_piece() {
    let mut g = game();
    let one = wizard(&g, 0);
    let a = place(&mut g, piece("Tree", Some(one), 0, false), Vec2I::new(5, 5));
    let b = place(&mut g, piece("Bush", Some(one), 0, false), Vec2I::new(6, 5));
    moving(&mut g, 0);
    g.cursor.set_pos(Vec2I::new(5, 5));
    key(&mut g, 's');
    assert_eq!(g.moving.unwrap().movement_budget, 0);
    assert_eq!(
        decide_move(&g, None, Some(CursorMovedEvent(Vec2I::new(6, 5), Vec2I::new(5, 5)))),
        MoveDecision::Blocked
    );
    let events = key(&mut g, 'd');
    assert_eq!(events, vec![GameEvent::Text(Some(Message::CannotMoveToOccupiedSquare))]);
    assert_eq!(g.state, GameState::MoveMoving);
    assert!(g.attacking.is_none());
    assert_eq!(g.board.get_entity_pos(a), Vec2I::new(5, 5));
    assert_eq!(g.board.get_entity(Vec2I::new(6, 5)), Some(b));
    assert_eq!(g.cursor.get_pos_v(), Vec2I::new(5, 5));
    assert_eq!(g.moving.unwrap().movement_budget, 0);
}

#[test]
fn piece_without_allowance_attacks_an_enemy_next_to_it() {
    let mut g = game();
    let one = wizard(&g, 0);
    let two = wizard(&g, 1);
    let a = place(&mut g, piece("Tree", Some(one), 0, false), Vec2I::new(5, 5));
    let b = place(&mut g, piece("Orc", Some(two), 3, false), Vec2I::new(6, 6));
    moving(&mut g, 0);
    g.cursor.set_pos(Vec2I::new(5, 5));
    key(&mut g, 's');
    assert_eq!(g.moving.unwrap().movement_budget, 0);
    assert_eq!(
        decide_move(&g, None, Some(CursorMovedEvent(Vec2I::new(6, 6), Vec2I::new(5, 5)))),
        MoveDecision::Attack(b)
    );
    let events = key(&mut g, 'e');
    assert_eq!(
        events,
        vec![
            GameEvent::Text(None),
            GameEvent::Explosion(StartExplosion { at: Vec2I::new(6, 6), idx: 0 }),
        ]
    );
    assert_eq!(g.state, GameState::AttackDo);
    assert_eq!(
        g.attacking,
        Some(AttackingComponent { attacker: a, attackee: b, ranged: false })
    );
    assert_eq!(g.board.get_entity_pos(a), Vec2I::new(5, 5));
    assert_eq!(g.board.get_entity_pos(b), Vec2I::new(6, 6));
    let events = attack_do(&mut g, 9, 1);
    assert_eq!(events, vec![GameEvent::Kill(BoardKill { killer: a, killed: b })]);
    assert_eq!(g.state, GameState::MoveChoose);
    assert_eq!(g.board.get_entity_pos(a), Vec2I::new(5, 5));
}

#[test]
fn walking_piece_tests_the_square_before_the_range() {
    let mut g = game();
    let one = wizard(&g, 0);
    let two = wizard(&g, 1);
    place(&mut g, piece("A", Some(one), 1, false), Vec2I::new(5, 5));
    let own = place(&mut g, piece("Own", Some(one), 1, false), Vec2I::new(8, 5));
    let orc = place(&mut g, piece("Orc", Some(two), 1, false), Vec2I::new(5, 8));
    moving(&mut g, 0);
    g.cursor.set_pos(Vec2I::new(5, 5));
    key(&mut g, 's');
    let from = Vec2I::new(5, 5);
    assert_eq!(
        decide_move(&g, None, Some(CursorMovedEvent(Vec2I::new(8, 5), from))),
        MoveDecision::Blocked
    );
    assert_eq!(
        decide_move(&g, None, Some(CursorMovedEvent(Vec2I::new(5, 8), from))),
        MoveDecision::Attack(orc)
    );
    assert_eq!(
        decide_move(&g, None, Some(CursorMovedEvent(Vec2I::new(7, 5), from))),
        MoveDecision::OutOfRange
    );
    assert_eq!(
        decide_move(&g, None, Some(CursorMovedEvent(Vec2I::new(6, 5), from))),
        MoveDecision::Step { to: Vec2I::new(6, 5), cost: 1 }
    );
    assert!(g.board._has_entity(own));
}

#[test]
fn flying_piece_tests_the_range_before_the_square() {
    let mut g = game();
    let one = wizard(&g, 0);
    let two = wizard(&g, 1);
    place(&mut g, piece("Bat", Some(one), 2, true), Vec2I::new(5, 5));
    place(&mut g, piece("Own", Some(one), 1, false), Vec2I::new(8, 5));
    let near = place(&mut g, piece("Near", Some(two), 1, false), Vec2I::new(5, 7));
    place(&mut g, piece("Far", Some(two), 1, false), Vec2I::new(5, 8));
    moving(&mut g, 0);
    g.cursor.set_pos(Vec2I::new(5, 5));
    key(&mut g, 's');
    g.cursor.set_pos(Vec2I::new(8, 5));
    assert_eq!(decide_move(&g, Some('s'), None), MoveDecision::OutOfRange);
    g.cursor.set_pos(Vec2I::new(5, 8));
    assert_eq!(decide_move(&g, Some('s'), None), MoveDecision::OutOfRange);
    g.cursor.set_pos(Vec2I::new(5, 7));
    assert_eq!(decide_move(&g, Some('s'), None), MoveDecision::Attack(near));
    g.cursor.set_pos(Vec2I::new(5, 5));
    assert_eq!(decide_move(&g, Some('s'), None), MoveDecision::Blocked);
}

#[test]
fn cancel_frees_the_piece_again() {
    let mut g = game();
    let one = wizard(&g, 0);
    let a = place(&mut g, piece("A", Some(one), 3, false), Vec2I::new(5, 5));
    moving(&mut g, 0);
    g.cursor.set_pos(Vec2I::new(5, 5));
    key(&mut g, 's');
    key(&mut g, 'd');
    let events = key(&mut g, 'k');
    assert_eq!(events, vec![GameEvent::Text(None)]);
    assert_eq!(g.state, GameState::MoveChoose);
    assert!(g.moving.is_none());
    assert!(!g.world.get(a).unwrap().has_moved);
    assert_eq!(g.board.get_entity_pos(a), Vec2I::new(6, 5));
    assert!(g.cursor.visible);
    let events = key(&mut g, 's');
    assert_eq!(
        events,
        vec![GameEvent::Text(Some(Message::MovementRange { movement: 3, flying: false }))]
    );
    assert_eq!(g.moving.unwrap().movement_budget, 3);
}

#[test]
fn own_piece_blocks_the_way() {
    let mut g = game();
    let one = wizard(&g, 0);
    let a = place(&mut g, piece("A", Some(one), 3, false), Vec2I::new(2, 5));
    moving(&mut g, 0);
    g.cursor.set_pos(Vec2I::new(2, 5));
    key(&mut g, 's');
    let events = key(&mut g, 'a');
    assert_eq!(events, vec![GameEvent::Text(Some(Message::CannotMoveToOccupiedSquare))]);
    assert_eq!(g.cursor.get_pos_v(), Vec2I::new(2, 5));
    assert_eq!(g.board.get_entity_pos(a), Vec2I::new(2, 5));
    assert_eq!(g.board.get_entity_pos(one), Vec2I::new(1, 5));
    assert_eq!(g.state, GameState::MoveMoving);
    assert_eq!(g.moving.unwrap().movement_budget, 3);
}

#[test]
fn only_own_pieces_that_have_not_moved_are_chosen() {
    let mut g = game();
    let two = wizard(&g, 1);
    place(&mut g, piece("Theirs", Some(two), 3, false), Vec2I::new(5, 5));
    place(&mut g, piece("Nobody's", None, 3, false), Vec2I::new(6, 5));
    moving(&mut g, 0);
    g.cursor.set_pos(Vec2I::new(5, 5));
    assert_eq!(key(&mut g, 's'), vec![GameEvent::Text(Some(Message::NotEligibleToMove))]);
    g.cursor.set_pos(Vec2I::new(6, 5));
    assert_eq!(key(&mut g, 's'), vec![GameEvent::Text(Some(Message::NotEligibleToMove))]);
    g.cursor.set_pos(Vec2I::new(7, 5));
    assert!(key(&mut g, 's').is_empty());
    assert_eq!(g.state, GameState::MoveChoose);
    g.cursor.set_pos(Vec2I::new(1, 5));
    assert_eq!(
        key(&mut g, 's'),
        vec![GameEvent::Text(Some(Message::MovementRange { movement: 1, flying: false }))]
    );
    assert_eq!(g.moving.unwrap().entity, wizard(&g, 0));
}

#[test]
fn shooter_aims_after_its_move() {
    let mut g = game();
    let one = wizard(&g, 0);
    let two = wizard(&g, 1);
    let mut elf = piece("Elf", Some(one), 1, false);
    elf.ranged = Some(RangedCombat { ranged_combat: 4, range: 3 });
    let elf = place(&mut g, elf, Vec2I::new(5, 5));
    let orc = place(&mut g, piece("Orc", Some(two), 1, false), Vec2I::new(9, 5));
    moving(&mut g, 0);
    g.cursor.set_pos(Vec2I::new(5, 5));
    key(&mut g, 's');
    let events = key(&mut g, 'd');
    assert_eq!(
        events,
        vec![
            GameEvent::Text(None),
            GameEvent::Move(BoardMove { entity: elf, from: Vec2I::new(5, 5), to: Vec2I::new(6, 5) }),
            GameEvent::Text(Some(Message::RangedAttack { range: 3 })),
        ]
    );
    assert_eq!(g.state, GameState::RangedAttackChoose);
    assert_eq!(g.ranged_attack, Some(elf));
    assert_eq!(g.cursor.cursor, CURSOR_TARGET);
    assert_eq!(g.cursor.get_pos_v(), Vec2I::new(6, 5));

    g.cursor.set_pos(Vec2I::new(10, 5));
    let events = key(&mut g, 's');
    assert_eq!(
        events,
        vec![GameEvent::Text(None), GameEvent::Text(Some(Message::OutOfRange))]
    );
    assert_eq!(g.state, GameState::RangedAttackChoose);

    g.cursor.set_pos(Vec2I::new(9, 5));
    let events = key(&mut g, 's');
    assert_eq!(
        events,
        vec![
            GameEvent::Text(None),
            GameEvent::Text(None),
            GameEvent::Explosion(StartExplosion { at: Vec2I::new(9, 5), idx: 0 }),
        ]
    );
    assert_eq!(g.state, GameState::RangedAttackDo);
    assert!(g.ranged_attack.is_none());
    assert_eq!(
        g.attacking,
        Some(AttackingComponent { attacker: elf, attackee: orc, ranged: true })
    );
    let events = attack_do(&mut g, 1, 2);
    assert_eq!(events, vec![GameEvent::Kill(BoardKill { killer: elf, killed: orc })]);
    assert_eq!(g.state, GameState::MoveChoose);
    assert!(!g.board._has_entity(orc));
}

#[test]
fn shot_is_decided_with_the_ranged_strength() {
    let mut g = game();
    let one = wizard(&g, 0);
    let two = wizard(&g, 1);
    let mut elf = piece("Elf", Some(one), 1, false);
    elf.attack = Some(CanAttack { combat: 200 });
    elf.ranged = Some(RangedCombat { ranged_combat: 4, range: 3 });
    let elf = place(&mut g, elf, Vec2I::new(5, 5));
    let orc = place(&mut g, piece("Orc", Some(two), 1, false), Vec2I::new(7, 5));
    g.player_turn = 0;
    g.state = GameState::RangedAttackChoose;
    g.ranged_attack = Some(elf);
    g.cursor.set_pos(Vec2I::new(7, 5));
    key(&mut g, 's');
    assert_eq!(g.state, GameState::RangedAttackDo);
    assert!(attack_do(&mut g, 1, 3).is_empty());
    assert!(g.board._has_entity(orc));
}

#[test]
fn shot_can_be_called_off_or_wasted() {
    let mut g = game();
    let one = wizard(&g, 0);
    let mut elf = piece("Elf", Some(one), 1, false);
    elf.ranged = Some(RangedCombat { ranged_combat: 4, range: 3 });
    let elf = place(&mut g, elf, Vec2I::new(5, 5));
    g.player_turn = 0;
    g.state = GameState::RangedAttackChoose;
    g.ranged_attack = Some(elf);
    assert!(key(&mut g, 'p').is_empty());
    let events = key(&mut g, 'K');
    assert_eq!(events, vec![GameEvent::Text(None)]);
    assert_eq!(g.state, GameState::MoveChoose);
    assert!(g.ranged_attack.is_none());
    assert_eq!(g.cursor.cursor, CURSOR_BOX);

    g.state = GameState::RangedAttackChoose;
    g.ranged_attack = Some(elf);
    g.cursor.set_pos(Vec2I::new(6, 6));
    let events = key(&mut g, 's');
    assert_eq!(events, vec![GameEvent::Text(None)]);
    assert_eq!(g.state, GameState::MoveChoose);
    assert!(g.attacking.is_none());

    g.state = GameState::RangedAttackChoose;
    g.ranged_attack = Some(elf);
    g.cursor.set_pos(Vec2I::new(1, 5));
    g.world.get_mut(elf).ranged = Some(RangedCombat { ranged_combat: 4, range: 9 });
    let events = key(&mut g, 's');
    assert_eq!(events, vec![GameEvent::Text(None)]);
    assert_eq!(g.state, GameState::MoveChoose);
}

#[test]
fn killed_wizard_takes_its_creations_along() {
    let mut g = game();
    let one = wizard(&g, 0);
    let two = wizard(&g, 1);
    let mine = place(&mut g, piece("Mine", Some(one), 1, false), Vec2I::new(3, 3));
    let theirs = place(&mut g, piece("Theirs", Some(two), 1, false), Vec2I::new(4, 4));
    let also = place(&mut g, piece("Also", Some(two), 1, false), Vec2I::new(4, 4));
    g.player_info[0].creations.push(mine);
    g.player_info[1].creations.push(theirs);
    g.player_info[1].creations.push(also);
    g.state = GameState::MoveChoose;
    let mut events = Vec::new();
    kill(&mut g, mine, two, &mut events);
    assert_eq!(events, vec![GameEvent::Kill(BoardKill { killer: mine, killed: two })]);
    for e in [two, theirs, also] {
        assert!(!g.world.contains(e));
        assert!(!g.board._has_entity(e));
    }
    assert!(!g.board.has_entity_at(Vec2I::new(4, 4)));
    assert!(!g.board.has_entity_at(Vec2I::new(13, 5)));
    assert!(g.world.contains(mine));
    assert!(g.board._has_entity(one));
    assert!(g.player_info[1].creations.is_empty());
    assert_eq!(g.player_info[0].creations, vec![mine]);
    assert_eq!(g.player_info[1].handle, Some(two));
    assert_eq!(g.player_info[1].name, "Two");
}

#[test]
fn round_runs_through_its_parts() {
    let mut g = game();
    let tick = |g: &mut Game| handle_input(g, Input::Tick);
    assert_eq!(key(&mut g, '4'), vec![GameEvent::Text(None)]);
    assert_eq!(g.state, GameState::TurnMenuTransition);
    tick(&mut g);
    assert_eq!((g.state, g.player_turn), (GameState::TurnMenu, 1));
    key(&mut g, '4');
    tick(&mut g);
    assert_eq!((g.state, g.player_turn), (GameState::CastSpellSetup, 0));
    assert!(g.cursor.visible);
    tick(&mut g);
    assert_eq!((g.state, g.player_turn), (GameState::CastSpell, 0));
    assert_eq!(g.cursor.cursor, CURSOR_SPELL);
    tick(&mut g);
    assert_eq!((g.state, g.player_turn), (GameState::CastSpellSetup, 1));
    tick(&mut g);
    assert_eq!((g.state, g.player_turn), (GameState::CastSpell, 1));
    tick(&mut g);
    assert_eq!((g.state, g.player_turn), (GameState::CastSpellSetup, 2));
    assert!(tick(&mut g).is_empty());
    assert_eq!((g.state, g.player_turn), (GameState::MoveSetup, 0));
    let one = wizard(&g, 0);
    let two = wizard(&g, 1);
    g.world.get_mut(two).has_moved = true;
    assert_eq!(
        tick(&mut g),
        vec![
            GameEvent::CursorOn(PositionCursorOnEntity(one)),
            GameEvent::Text(Some(Message::PlayersTurn(0))),
        ]
    );
    assert_eq!((g.state, g.player_turn), (GameState::MoveChoose, 0));
    assert_eq!(g.cursor.get_pos_v(), Vec2I::new(1, 5));
    assert!(!g.world.get(two).unwrap().has_moved);
    assert!(tick(&mut g).is_empty());
    assert!(key(&mut g, '0').is_empty());
    assert_eq!((g.state, g.player_turn), (GameState::MoveSetup, 1));
    assert_eq!(
        tick(&mut g),
        vec![
            GameEvent::CursorOn(PositionCursorOnEntity(two)),
            GameEvent::Text(Some(Message::PlayersTurn(1))),
        ]
    );
    assert_eq!(g.cursor.get_pos_v(), Vec2I::new(13, 5));
    key(&mut g, '0');
    assert_eq!((g.state, g.player_turn), (GameState::MoveSetup, 2));
    assert_eq!(tick(&mut g), vec![GameEvent::Text(None)]);
    assert_eq!((g.state, g.player_turn), (GameState::RoundEnd, 0));
    assert!(!g.cursor.visible);
    g.pick_illusion = true;
    assert!(tick(&mut g).is_empty());
    assert_eq!((g.state, g.player_turn), (GameState::TurnMenu, 0));
    assert!(!g.pick_illusion);
}

#[test]
fn cursor_move_tells_what_lies_there() {
    let mut g = game();
    let one = wizard(&g, 0);
    moving(&mut g, 0);
    g.cursor.set_pos(Vec2I::new(2, 5));
    assert_eq!(key(&mut g, 'a'), vec![GameEvent::Text(Some(Message::Describe(one)))]);
    assert_eq!(key(&mut g, 'w'), vec![GameEvent::Text(None)]);
    assert_eq!(
        board_describe_piece(&g, CursorMovedEvent(Vec2I::new(13, 5), Vec2I::new(1, 6))),
        GameEvent::Text(Some(Message::Describe(wizard(&g, 1))))
    );
}

#[test]
fn walking_takes_the_cursor_move_as_the_step() {
    let mut g = game();
    let one = wizard(&g, 0);
    let a = place(&mut g, piece("A", Some(one), 5, false), Vec2I::new(5, 5));
    moving(&mut g, 0);
    g.cursor.set_pos(Vec2I::new(5, 5));
    key(&mut g, 's');
    let ev = CursorMovedEvent(Vec2I::new(7, 7), Vec2I::new(5, 5));
    assert_eq!(
        decide_move(&g, None, Some(ev)),
        MoveDecision::Step { to: Vec2I::new(7, 7), cost: 3 }
    );
    let events = move_moving_keyboard(&mut g, None, Some(ev));
    assert_eq!(events.len(), 2);
    assert_eq!(g.board.get_entity_pos(a), Vec2I::new(7, 7));
    assert_eq!(g.moving.unwrap().movement_budget, 2);
    assert_eq!(g.moving.unwrap().steps, 3);
    let far = CursorMovedEvent(Vec2I::new(10, 7), Vec2I::new(7, 7));
    assert_eq!(decide_move(&g, None, Some(far)), MoveDecision::OutOfRange);
}

#[test]
fn keys_aim_the_spell() {
    let mut g = game();
    g.player_info[0].spells.spells = spells_from_picks(&g.allspells, &vec![12, 20]);
    g.player_info[0].spells.set_chosen(1);
    g.state = GameState::CastSpell;
    g.cursor.set_pos(Vec2I::new(4, 4));
    assert_eq!(cast_spell_keyboard(&g, Some('s')), Some(Vec2I::new(4, 4)));
    assert_eq!(cast_spell_keyboard(&g, Some('S')), Some(Vec2I::new(4, 4)));
    assert_eq!(cast_spell_keyboard(&g, Some('x')), None);
    assert_eq!(cast_spell_keyboard(&g, None), None);
    g.player_info[0].spells.set_chosen(2);
    assert_eq!(cast_spell_keyboard(&g, Some('x')), Some(Vec2I::new(1, 5)));
    assert_eq!(cast_spell_keyboard(&g, None), None);
}
