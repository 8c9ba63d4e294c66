//! Creature templates, the pieces made from them, and the spells that
//! summon them.

use vstd::prelude::*;
use crate::board::MoveableComponent;
use crate::display::{decimal, labelled_number, push_number, Color, RepeatAnimation};
use crate::entity::{Entity, Piece, World};
use crate::spell::{ASpell, SpellBox};
use crate::system::{CanAttack, CanDefend, Named, RangedCombat};

verus! {

/// The number of frames in the animation of a creature.
pub const CREATURE_FRAMES: usize = 4;

/// The template of a creature, as the creature table gives it.
pub struct Creature {
    pub name: String,
    pub sprite_index: usize,
    pub entity: Option<Entity>,
    pub movement: u8,
    pub flying: bool,
    pub combat: u8,
    pub ranged_combat: u8,
    pub range: u8,
    pub defence: u8,
    pub mountable: bool,
    pub can_be_illusion: bool,
    pub law_chaos: i8,
    pub casting_chance: u8,
    pub manoeuvre: u8,
    pub magical_resistance: u8,
    pub color_r: u8,
    pub color_g: u8,
    pub color_b: u8,
}

/// What a `Creature` holds, with the name as text.
pub struct CreatureView {
    pub name: Seq<char>,
    pub sprite_index: usize,
    pub entity: Option<Entity>,
    pub movement: u8,
    pub flying: bool,
    pub combat: u8,
    pub ranged_combat: u8,
    pub range: u8,
    pub defence: u8,
    pub mountable: bool,
    pub can_be_illusion: bool,
    pub law_chaos: i8,
    pub casting_chance: u8,
    pub manoeuvre: u8,
    pub magical_resistance: u8,
    pub color_r: u8,
    pub color_g: u8,
    pub color_b: u8,
}

impl View for Creature {
    type V = CreatureView;

    open spec fn view(&self) -> CreatureView {
        CreatureView {
            name: self.name@,
            sprite_index: self.sprite_index,
            entity: self.entity,
            movement: self.movement,
            flying: self.flying,
            combat: self.combat,
            ranged_combat: self.ranged_combat,
            range: self.range,
            defence: self.defence,
            mountable: self.mountable,
            can_be_illusion: self.can_be_illusion,
            law_chaos: self.law_chaos,
            casting_chance: self.casting_chance,
            manoeuvre: self.manoeuvre,
            magical_resistance: self.magical_resistance,
            color_r: self.color_r,
            color_g: self.color_g,
            color_b: self.color_b,
        }
    }
}

impl Clone for Creature {
    fn clone(&self) -> (r: Self)
        ensures
            r == *self,
    {
        Creature {
            name: self.name.clone(),
            sprite_index: self.sprite_index,
            entity: self.entity,
            movement: self.movement,
            flying: self.flying,
            combat: self.combat,
            ranged_combat: self.ranged_combat,
            range: self.range,
            defence: self.defence,
            mountable: self.mountable,
            can_be_illusion: self.can_be_illusion,
            law_chaos: self.law_chaos,
            casting_chance: self.casting_chance,
            manoeuvre: self.manoeuvre,
            magical_resistance: self.magical_resistance,
            color_r: self.color_r,
            color_g: self.color_g,
            color_b: self.color_b,
        }
    }
}

/// What a summoned piece keeps of its making.
#[derive(Debug, PartialEq, Eq, Structural, Clone, Copy)]
pub struct CreatureComponent {
    pub is_illusion: bool,
    pub mountable: bool,
}

impl Creature {
    /// The frames of the animation have sprite numbers that fit in `usize`.
    pub open spec fn wf(&self) -> bool {
        self.sprite_index + CREATURE_FRAMES - 1 <= usize::MAX
    }

    /// The piece this template makes: it fights and defends with the
    /// template's strengths, shoots only where the template has a ranged
    /// strength above zero, and answers to nobody yet.
    pub open spec fn piece(&self, illusion: bool) -> Piece {
        Piece {
            named: Named { name: self.name },
            moveable: MoveableComponent { movement: self.movement, flying: self.flying },
            belongs: None,
            attack: Some(CanAttack { combat: self.combat }),
            defend: Some(CanDefend { defence: self.defence }),
            ranged: if self.ranged_combat > 0 {
                Some(RangedCombat { ranged_combat: self.ranged_combat, range: self.range })
            } else {
                None
            },
            creature: Some(CreatureComponent { is_illusion: illusion, mountable: self.mountable }),
            animation: Some(
                RepeatAnimation {
                    max: (self.sprite_index + CREATURE_FRAMES - 1) as usize,
                    init: self.sprite_index,
                },
            ),
            sprite: self.sprite_index,
            color: Color::Rgb(self.color_r, self.color_g, self.color_b),
            has_moved: false,
        }
    }

    /// Makes a piece from the template and takes it into the arena.
    pub fn to_entity(&self, illusion: bool, world: &mut World) -> (e: Entity)
        requires
            self.wf(),
            old(world).wf(),
            old(world).has_room(),
        ensures
            final(world).wf(),
            final(world).room() == old(world).room() - 1,
            !old(world)@.contains_key(e),
            final(world)@ == old(world)@.insert(e, self.piece(illusion)),
    {
        let ranged = if self.ranged_combat > 0 {
            Some(RangedCombat { ranged_combat: self.ranged_combat, range: self.range })
        } else {
            None
        };
        let piece = Piece {
            named: Named { name: self.name.clone() },
            moveable: MoveableComponent { movement: self.movement, flying: self.flying },
            belongs: None,
            attack: Some(CanAttack { combat: self.combat }),
            defend: Some(CanDefend { defence: self.defence }),
            ranged,
            creature: Some(CreatureComponent { is_illusion: illusion, mountable: self.mountable }),
            animation: Some(RepeatAnimation::new(self.sprite_index, CREATURE_FRAMES)),
            sprite: self.sprite_index,
            color: Color::Rgb(self.color_r, self.color_g, self.color_b),
            has_moved: false,
        };
        world.spawn(piece)
    }

    /// The spell that summons this creature.
    pub fn to_spell(&self) -> (s: SpellBox)
        ensures
            s == SpellBox::Summon(CreatureSpell { creature: *self }),
    {
        SpellBox::Summon(CreatureSpell { creature: self.clone() })
    }
}

/// A spell that summons a creature next to its caster.
pub struct CreatureSpell {
    pub creature: Creature,
}

impl Clone for CreatureSpell {
    fn clone(&self) -> (r: Self)
        ensures
            r == *self,
    {
        CreatureSpell { creature: self.creature.clone() }
    }
}

impl CreatureSpell {
    /// Summons the creature: a new piece enters the arena.
    pub fn cast(&self, illusion: bool, world: &mut World) -> (r: Option<Entity>)
        requires
            self.creature.wf(),
            old(world).wf(),
            old(world).has_room(),
        ensures
            final(world).wf(),
            final(world).room() == old(world).room() - 1,
            r matches Some(e) && !old(world)@.contains_key(e) && final(world)@ == old(world)@.insert(
                e,
                self.creature.piece(illusion),
            ),
    {
        Some(self.creature.to_entity(illusion, world))
    }
}

impl ASpell for CreatureSpell {
    open spec fn spec_name(&self) -> Seq<char> {
        self.creature.name@
    }

    open spec fn spec_law_rating(&self) -> i8 {
        self.creature.law_chaos
    }

    open spec fn spec_reusable(&self) -> bool {
        false
    }

    open spec fn spec_cast_range(&self) -> u8 {
        1
    }

    open spec fn spec_can_be_illusion(&self) -> bool {
        self.creature.can_be_illusion
    }

    open spec fn spec_casting_chance(&self) -> u8 {
        self.creature.casting_chance
    }

    open spec fn spec_description(&self) -> Seq<Seq<char>> {
        seq![
            "Combat="@ + decimal(self.creature.combat as nat),
            "Ranged Combat="@ + decimal(self.creature.ranged_combat as nat) + " Range="@ + decimal(
                self.creature.range as nat,
            ),
            "Defence="@ + decimal(self.creature.defence as nat),
            "Movement Allowance="@ + decimal(self.creature.movement as nat),
            "Manoeuver Rating="@ + decimal(self.creature.manoeuvre as nat),
            "Magic Resistance="@ + decimal(self.creature.magical_resistance as nat),
            "Casting Chance="@ + decimal(self.creature.casting_chance as nat) + "%"@,
        ]
    }

    fn name(&self) -> (r: String) {
        self.creature.name.clone()
    }

    fn law_rating(&self) -> (r: i8) {
        self.creature.law_chaos
    }

    fn reusable(&self) -> (r: bool) {
        false
    }

    fn cast_range(&self) -> (r: u8) {
        1
    }

    fn can_be_illusion(&self) -> (r: bool) {
        self.creature.can_be_illusion
    }

    fn casting_chance(&self) -> (r: u8) {
        self.creature.casting_chance
    }

    fn get_description(&self) -> (r: Vec<String>) {
        let mut ranged = labelled_number("Ranged Combat=", self.creature.ranged_combat);
        ranged.append(" Range=");
        push_number(&mut ranged, self.creature.range);
        let mut chance = labelled_number("Casting Chance=", self.casting_chance());
        chance.append("%");
        let mut lines: Vec<String> = Vec::new();
        lines.push(labelled_number("Combat=", self.creature.combat));
        lines.push(ranged);
        lines.push(labelled_number("Defence=", self.creature.defence));
        lines.push(labelled_number("Movement Allowance=", self.creature.movement));
        lines.push(labelled_number("Manoeuver Rating=", self.creature.manoeuvre));
        lines.push(labelled_number("Magic Resistance=", self.creature.magical_resistance));
        lines.push(chance);
        lines
    }
}

} // verus!
