//! The help screens.

use vstd::prelude::*;
use crate::game::{Game, GameEvent, Message};
use crate::gamestate::GameState;

verus! {

/// The screen a key of the help menu leads to: 0 back to the first screen,
/// 1 to 6 to the pages on keys, spells, combat, the undead, mounts and
/// victory. No other key leads anywhere.
pub open spec fn help_target(key: char) -> Option<GameState> {
    if key == '0' {
        Some(GameState::InitialMenu)
    } else if key == '1' {
        Some(GameState::HelpKeys)
    } else if key == '2' {
        Some(GameState::HelpSpells)
    } else if key == '3' {
        Some(GameState::HelpCombat)
    } else if key == '4' {
        Some(GameState::HelpUndead)
    } else if key == '5' {
        Some(GameState::HelpMounts)
    } else if key == '6' {
        Some(GameState::HelpVictory)
    } else {
        None
    }
}

/// The line at the bottom of a screen before play.
pub open spec fn prompt_of(state: GameState) -> Message {
    match state {
        GameState::InitialMenu => Message::PressHForHelp,
        GameState::Help => Message::HelpPrompt,
        _ => Message::PressAnyKeyToContinue,
    }
}

/// What is reported when one screen gives way to another: the bottom line
/// is cleared, then shows the line of the new screen.
pub open spec fn screen_change(to: GameState) -> Seq<GameEvent> {
    seq![GameEvent::Text(None), GameEvent::Text(Some(prompt_of(to)))]
}

fn change_screen(g: &mut Game, to: GameState, events: &mut Vec<GameEvent>)
    requires
        old(g).wf(),
        old(g).state.before_names(),
        to.before_names(),
    ensures
        final(g).wf(),
        *final(g) == (Game { state: to, ..*old(g) }),
        final(events)@ == old(events)@ + screen_change(to),
{
    events.push(GameEvent::Text(None));
    g.state = to;
    let prompt = match to {
        GameState::InitialMenu => Message::PressHForHelp,
        GameState::Help => Message::HelpPrompt,
        _ => Message::PressAnyKeyToContinue,
    };
    events.push(GameEvent::Text(Some(prompt)));
}

/// The help menu: a key from 0 to 6 leads to its screen.
pub fn help_keyboard_input(g: &mut Game, key: char) -> (events: Vec<GameEvent>)
    requires
        old(g).wf(),
        old(g).state is Help,
    ensures
        final(g).wf(),
        match help_target(key) {
            Some(to) => *final(g) == (Game { state: to, ..*old(g) }) && events@ == screen_change(
                to,
            ),
            None => *final(g) == *old(g) && events@ == Seq::<GameEvent>::empty(),
        },
{
    let mut events: Vec<GameEvent> = Vec::new();
    if key == '0' {
        change_screen(g, GameState::InitialMenu, &mut events);
    } else if key == '1' {
        change_screen(g, GameState::HelpKeys, &mut events);
    } else if key == '2' {
        change_screen(g, GameState::HelpSpells, &mut events);
    } else if key == '3' {
        change_screen(g, GameState::HelpCombat, &mut events);
    } else if key == '4' {
        change_screen(g, GameState::HelpUndead, &mut events);
    } else if key == '5' {
        change_screen(g, GameState::HelpMounts, &mut events);
    } else if key == '6' {
        change_screen(g, GameState::HelpVictory, &mut events);
    }
    events
}

/// A page of the help: any key leads back to the help menu.
pub fn help_subscreen_keyboard_input(g: &mut Game) -> (events: Vec<GameEvent>)
    requires
        old(g).wf(),
        old(g).state is HelpKeys || old(g).state is HelpSpells || old(g).state is HelpRangedCombat
            || old(g).state is HelpUndead || old(g).state is HelpMounts
            || old(g).state is HelpVictory,
    ensures
        final(g).wf(),
        *final(g) == (Game { state: GameState::Help, ..*old(g) }),
        events@ == screen_change(GameState::Help),
{
    let mut events: Vec<GameEvent> = Vec::new();
    change_screen(g, GameState::Help, &mut events);
    events
}

/// The page on combat: any key leads on to the page on ranged combat.
pub fn help_combat_keyboard_input(g: &mut Game) -> (events: Vec<GameEvent>)
    requires
        old(g).wf(),
        old(g).state is HelpCombat,
    ensures
        final(g).wf(),
        *final(g) == (Game { state: GameState::HelpRangedCombat, ..*old(g) }),
        events@ == screen_change(GameState::HelpRangedCombat),
{
    let mut events: Vec<GameEvent> = Vec::new();
    change_screen(g, GameState::HelpRangedCombat, &mut events);
    events
}

} // verus!
