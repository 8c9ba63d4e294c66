//! The words of the bottom line.

use vstd::prelude::*;
use crate::display::{decimal, labelled_number, BottomTextEvent};
use crate::entity::Entity;
use crate::game::{Game, Message};
use crate::spell::ASpell;

verus! {

/// The name of the wizard with the number `i`, or nothing where there is no
/// such wizard.
pub open spec fn player_name(g: Game, i: u8) -> Seq<char> {
    if i < g.player_info.len() {
        g.player_info[i as int].name@
    } else {
        Seq::empty()
    }
}

/// A wizard and the spell it has chosen: the name of the wizard, a blank,
/// and the name of the spell. Nothing where no spell is chosen.
pub open spec fn chosen_spell_line(g: Game, i: u8) -> Seq<char> {
    if i < g.player_info.len() && g.player_info[i as int].spells.chosen_spell is Some {
        g.player_info[i as int].name@ + " "@ + g.player_info[i as int].chosen().spec_name()
    } else {
        Seq::empty()
    }
}

/// What is said of a piece: its name, and in brackets the name of the
/// wizard it answers to, where it answers to one that lives. Nothing for a
/// piece that does not live.
pub open spec fn description(g: Game, e: Entity) -> Seq<char> {
    if g.world@.contains_key(e) {
        let piece = g.world@[e];
        match piece.belongs {
            Some(b) => if g.world@.contains_key(b.player_entity) {
                piece.named.name@ + "("@ + g.world@[b.player_entity].named.name@ + ")"@
            } else {
                piece.named.name@
            },
            None => piece.named.name@,
        }
    } else {
        Seq::empty()
    }
}

/// The words of a message.
pub open spec fn message_view(g: Game, m: Message) -> Seq<char> {
    match m {
        Message::OutOfRange => "Out of range"@,
        Message::NotThere => "Not there"@,
        Message::CannotMoveToOccupiedSquare => "Cannot move to occupied square"@,
        Message::NotEligibleToMove => "Not eligible to move"@,
        Message::PlayersTurn(i) => player_name(g, i) + "'s turn"@,
        Message::ChosenSpell(i) => chosen_spell_line(g, i),
        Message::MovementRange { movement, flying } => "Movement range="@ + decimal(
            movement as nat,
        ) + (if flying {
            " (flying)"@
        } else {
            Seq::empty()
        }),
        Message::RangedAttack { range } => "Ranged attack, range="@ + decimal(range as nat),
        Message::IllusionPrompt => "Illusion? (Y/N)"@,
        Message::PressZeroToExit => "      Press 0 to exit"@,
        Message::AnyKeyToExit => "      Any key to exit"@,
        Message::PressHForHelp => "      Press H for help"@,
        Message::HelpPrompt => "Press Keys 1-6 or 0 to return"@,
        Message::PressAnyKeyToContinue => "   Press any key to continue "@,
        Message::Describe(e) => description(g, e),
    }
}

/// Says what a piece is.
pub fn describe(g: &Game, e: Entity) -> (text: String)
    ensures
        text@ == description(*g, e),
{
    match g.world.get(e) {
        Some(piece) => {
            let mut text = piece.named.name.clone();
            match piece.belongs {
                Some(b) => match g.world.get(b.player_entity) {
                    Some(owner) => {
                        text.append("(");
                        text.append(owner.named.name.as_str());
                        text.append(")");
                    },
                    None => {},
                },
                None => {},
            }
            text
        },
        None => String::new(),
    }
}

/// Puts a message into words.
pub fn message_text(g: &Game, m: Message) -> (text: String)
    requires
        forall|i: int|
            0 <= i < g.player_info.len() ==> (#[trigger] g.player_info[i]).spells.wf(),
    ensures
        text@ == message_view(*g, m),
{
    match m {
        Message::OutOfRange => "Out of range".to_string(),
        Message::NotThere => "Not there".to_string(),
        Message::CannotMoveToOccupiedSquare => "Cannot move to occupied square".to_string(),
        Message::NotEligibleToMove => "Not eligible to move".to_string(),
        Message::PlayersTurn(i) => {
            let mut text = if (i as usize) < g.player_info.len() {
                g.player_info[i as usize].name.clone()
            } else {
                String::new()
            };
            text.append("'s turn");
            text
        },
        Message::ChosenSpell(i) => {
            if (i as usize) < g.player_info.len() {
                match g.player_info[i as usize].get_chosen_spell_name() {
                    Some(text) => text,
                    None => String::new(),
                }
            } else {
                String::new()
            }
        },
        Message::MovementRange { movement, flying } => {
            let mut text = labelled_number("Movement range=", movement);
            if flying {
                text.append(" (flying)");
            }
            assert(text@ =~= message_view(*g, m));
            text
        },
        Message::RangedAttack { range } => labelled_number("Ranged attack, range=", range),
        Message::IllusionPrompt => "Illusion? (Y/N)".to_string(),
        Message::PressZeroToExit => "      Press 0 to exit".to_string(),
        Message::AnyKeyToExit => "      Any key to exit".to_string(),
        Message::PressHForHelp => "      Press H for help".to_string(),
        Message::HelpPrompt => "Press Keys 1-6 or 0 to return".to_string(),
        Message::PressAnyKeyToContinue => "   Press any key to continue ".to_string(),
        Message::Describe(e) => describe(g, e),
    }
}

/// What the bottom line is to show for a report of the game.
pub fn bottom_text(g: &Game, text: Option<Message>) -> (ev: BottomTextEvent)
    requires
        forall|i: int|
            0 <= i < g.player_info.len() ==> (#[trigger] g.player_info[i]).spells.wf(),
    ensures
        match text {
            Some(m) => ev.0 matches Some(words) && words@ == message_view(*g, m),
            None => ev.0 is None,
        },
{
    match text {
        Some(m) => BottomTextEvent(Some(message_text(g, m))),
        None => BottomTextEvent::clear(),
    }
}

} // verus!
