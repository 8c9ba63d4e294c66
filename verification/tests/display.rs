use mayhem_rs::cursor::{
    Cursor, CursorMovedEvent, Direction, CURSOR_BOX, CURSOR_FLY, CURSOR_SPELL, CURSOR_TARGET,
};
use mayhem_rs::display::{
    char_to_pos, labelled_number, manage_text_bottom, push_number, start_explosion,
    BottomTextEvent, BottomTextState, Explosion, RepeatAnimation, StartExplosion,
};
use mayhem_rs::vec::Vec2I;

#[test]
fn glyphs_follow_the_characters() {
    assert_eq!(char_to_pos(' '), 1);
    assert_eq!(char_to_pos('!'), 2);
    assert_eq!(char_to_pos('0'), 17);
    assert_eq!(char_to_pos('A'), 34);
    assert_eq!(char_to_pos('a'), 66);
    assert_eq!(char_to_pos('~'), 95);
    assert_eq!(char_to_pos('\u{7f}'), 0);
    assert_eq!(char_to_pos('\n'), 0);
    assert_eq!(char_to_pos('é'), 0);
}

#[test]
fn numbers_are_written_in_decimal() {
    for n in [0u8, 1, 9, 10, 11, 42, 99, 100, 101, 110, 199, 200, 255] {
        let mut text = String::from("x");
        push_number(&mut text, n);
        assert_eq!(text, format!("x{}", n));
        assert_eq!(labelled_number("Combat=", n), format!("Combat={}", n));
    }
}

#[test]
fn animation_cycles_through_its_frames() {
    let a = RepeatAnimation::new(180, 4);
    assert_eq!(a, RepeatAnimation { max: 183, init: 180 });
    assert_eq!(a.next_index(180, true), 181);
    assert_eq!(a.next_index(182, true), 183);
    assert_eq!(a.next_index(183, true), 180);
    assert_eq!(a.next_index(170, true), 180);
    assert_eq!(a.next_index(178, true), 180);
    assert_eq!(a.next_index(179, true), 180);
    assert_eq!(a.next_index(500, true), 180);
    assert_eq!(a.next_index(181, false), 184);
    assert_eq!(RepeatAnimation::new(7, 1), RepeatAnimation { max: 7, init: 7 });
    assert_eq!(RepeatAnimation::new(7, 0), RepeatAnimation { max: 6, init: 7 });
    assert_eq!(RepeatAnimation::new(0, 1), RepeatAnimation { max: 0, init: 0 });
    assert_eq!(
        RepeatAnimation::new(usize::MAX, 1),
        RepeatAnimation { max: usize::MAX, init: usize::MAX }
    );
    assert_eq!(
        RepeatAnimation::new(1, usize::MAX),
        RepeatAnimation { max: usize::MAX, init: 1 }
    );
}

#[test]
fn explosion_runs_to_its_end() {
    let (first, explosion) = start_explosion(StartExplosion { at: Vec2I::new(1, 1), idx: 0 });
    assert_eq!(first, 130);
    assert_eq!(explosion, Explosion { max: 137 });
    let (first, explosion) = start_explosion(StartExplosion { at: Vec2I::new(1, 1), idx: 2 });
    assert_eq!(first, 150);
    assert_eq!(explosion.max, 157);
    let mut index = first;
    let mut frames = 1;
    while let Some(next) = explosion.next_index(index) {
        index = next;
        frames += 1;
    }
    assert_eq!(index, 157);
    assert_eq!(frames, 8);
    assert_eq!(Explosion::new(10, 8), Explosion { max: 17 });
    assert_eq!(Explosion::new(10, 0), Explosion { max: 9 });
    assert_eq!(Explosion::new(0, 1), Explosion { max: 0 });
    assert_eq!(Explosion::new(usize::MAX, 1), Explosion { max: usize::MAX });
}

#[test]
fn bottom_line_is_taken_down_only_when_it_shows() {
    let mut state = BottomTextState::default();
    assert_eq!(state, BottomTextState::Cleared);
    assert_eq!(manage_text_bottom(&mut state, &BottomTextEvent::clear()), (false, false));
    assert_eq!(state, BottomTextState::Cleared);
    assert_eq!(manage_text_bottom(&mut state, &BottomTextEvent::from("Hi")), (false, true));
    assert_eq!(state, BottomTextState::Shown);
    assert_eq!(manage_text_bottom(&mut state, &BottomTextEvent::from("Ho")), (true, true));
    assert_eq!(state, BottomTextState::Shown);
    assert_eq!(manage_text_bottom(&mut state, &BottomTextEvent::clear()), (true, false));
    assert_eq!(state, BottomTextState::Cleared);
    assert_eq!(BottomTextEvent::from("Out of range").0, Some("Out of range".to_string()));
    assert_eq!(BottomTextEvent::clear().0, None);
}

#[test]
fn cursor_steps_within_the_field() {
    let mut c = Cursor::default();
    assert_eq!(c.get_pos_v(), Vec2I::new(0, 0));
    assert_eq!(c.keyboard_input(Direction::Left), None);
    assert_eq!(c.keyboard_input(Direction::Down), None);
    assert_eq!(c.keyboard_input(Direction::DownLeft), None);
    assert!(!c.moved);
    assert_eq!(
        c.keyboard_input(Direction::UpRight),
        Some(CursorMovedEvent(Vec2I::new(1, 1), Vec2I::new(0, 0)))
    );
    assert!(c.moved);
    c.moved = false;
    assert_eq!(
        c.keyboard_input(Direction::DownLeft),
        Some(CursorMovedEvent(Vec2I::new(0, 0), Vec2I::new(1, 1)))
    );
    c.moved = false;
    assert_eq!(
        c.keyboard_input(Direction::UpLeft),
        Some(CursorMovedEvent(Vec2I::new(0, 1), Vec2I::new(0, 0)))
    );
    c.moved = false;
    assert_eq!(
        c.keyboard_input(Direction::DownRight),
        Some(CursorMovedEvent(Vec2I::new(1, 0), Vec2I::new(0, 1)))
    );
    c.set_pos(Vec2I::new(14, 9));
    c.moved = false;
    assert_eq!(c.keyboard_input(Direction::Right), None);
    assert_eq!(c.keyboard_input(Direction::Up), None);
    assert_eq!(c.keyboard_input(Direction::UpRight), None);
    assert_eq!(c.get_pos_v(), Vec2I::new(14, 9));
    assert_eq!(
        c.keyboard_input(Direction::UpLeft),
        Some(CursorMovedEvent(Vec2I::new(13, 9), Vec2I::new(14, 9)))
    );
    c.moved = false;
    c.set_pos(Vec2I::new(15, 11));
    assert_eq!(c.keyboard_input(Direction::Right), None);
    assert_eq!(c.keyboard_input(Direction::Up), None);
    assert_eq!(
        c.keyboard_input(Direction::Left),
        Some(CursorMovedEvent(Vec2I::new(14, 11), Vec2I::new(15, 11)))
    );
}

#[test]
fn cursor_move_lifts_the_hold() {
    let mut c = Cursor::default();
    c.set_pos(Vec2I::new(5, 5));
    c.hide_till_moved();
    assert!(c.hide_till_moved);
    c.keyboard_input(Direction::Right);
    assert!(!c.hide_till_moved);
    assert!(c.moved);
    assert_eq!(
        c.keyboard_input(Direction::Right),
        Some(CursorMovedEvent(Vec2I::new(7, 5), Vec2I::new(6, 5)))
    );
    c.set_pos(Vec2I::new(14, 5));
    assert_eq!(
        c.keyboard_input(Direction::Right),
        Some(CursorMovedEvent(Vec2I::new(14, 5), Vec2I::new(14, 5)))
    );
}

#[test]
fn cursor_setters_ask_for_a_redraw() {
    let mut c = Cursor::default();
    c.redraw = false;
    c.set_visible();
    assert!(c.is_visible() && c.redraw);
    c.redraw = false;
    c.set_invisible();
    assert!(!c.is_visible() && c.redraw);
    c.redraw = false;
    c.set_type(CURSOR_TARGET);
    assert!(c.cursor == 3 && c.redraw);
    c.redraw = false;
    c.set_pos(Vec2I::new(3, 4));
    assert!(c.x == 3 && c.y == 4 && c.redraw);
    assert_eq!((CURSOR_SPELL, CURSOR_BOX, CURSOR_FLY, CURSOR_TARGET), (0, 1, 2, 3));
}

#[test]
fn cursor_blinks_when_it_shows() {
    let mut c = Cursor::default();
    c.set_visible();
    assert_eq!(c.animate_cursor(false, false), (true, true));
    assert!(!c.redraw && !c.moved);
    assert_eq!(c.animate_cursor(true, false), (false, true));
    assert_eq!(c.animate_cursor(true, true), (false, false));
    assert_eq!(c.animate_cursor(false, true), (false, true));
    c.hide_till_moved();
    assert_eq!(c.animate_cursor(true, true), (true, false));
    assert_eq!(c.animate_cursor(false, true), (true, false));
    c.hide_till_moved = false;
    c.moved = true;
    assert_eq!(c.animate_cursor(false, true), (true, false));
    c.set_invisible();
    assert_eq!(c.animate_cursor(true, true), (true, false));
    assert_eq!(c.animate_cursor(false, true), (false, false));
}
