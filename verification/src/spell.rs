//! The spells: what they are, what all of them have in common, and the
//! catalogue from which the wizards draw their books.

use vstd::prelude::*;
use crate::board::MoveableComponent;
use crate::constants::{CHAOS, LAW, NEUTRAL};
use crate::creature::{Creature, CreatureSpell, CreatureView};
use crate::display::{Color, RepeatAnimation};
use crate::entity::{Entity, Piece, World};
use crate::player::{PlayerSpell, PlayerSpellView};
use crate::system::RangedCombat;

verus! {

/// The mark shown between the letter and the name of a spell: by the sign of
/// its law rating.
pub open spec fn separator(law_rating: i8) -> Seq<char> {
    if law_rating == 0 {
        NEUTRAL@
    } else if law_rating < 0 {
        CHAOS@
    } else {
        LAW@
    }
}

/// The colour a spell is listed in: by its chance of success, in steps of
/// twenty from forty up to a hundred.
pub open spec fn chance_color(chance: u8) -> Color {
    if chance >= 100 {
        Color::White
    } else if chance >= 80 {
        Color::Yellow
    } else if chance >= 60 {
        Color::Aqua
    } else if chance >= 40 {
        Color::Green
    } else {
        Color::Fuchsia
    }
}

/// What every spell can be asked.
pub trait ASpell {
    spec fn spec_name(&self) -> Seq<char>;

    spec fn spec_law_rating(&self) -> i8;

    spec fn spec_reusable(&self) -> bool;

    spec fn spec_cast_range(&self) -> u8;

    spec fn spec_can_be_illusion(&self) -> bool;

    spec fn spec_casting_chance(&self) -> u8;

    spec fn spec_description(&self) -> Seq<Seq<char>>;

    fn name(&self) -> (r: String)
        ensures
            r@ == self.spec_name(),
    ;

    /// Above zero for a spell of law, below for one of chaos.
    fn law_rating(&self) -> (r: i8)
        ensures
            r == self.spec_law_rating(),
    ;

    /// Whether the spell stays in the book after it was cast.
    fn reusable(&self) -> (r: bool)
        ensures
            r == self.spec_reusable(),
    ;

    /// How far from the caster the target may lie; zero for a spell that
    /// has no target.
    fn cast_range(&self) -> (r: u8)
        ensures
            r == self.spec_cast_range(),
    ;

    /// Whether the caster is asked if the spell is to be an illusion.
    fn can_be_illusion(&self) -> (r: bool)
        ensures
            r == self.spec_can_be_illusion(),
    ;

    /// Chance of success in percent. Shown, never rolled against.
    fn casting_chance(&self) -> (r: u8)
        ensures
            r == self.spec_casting_chance(),
    ;

    /// The lines shown when the spell is examined.
    fn get_description(&self) -> (r: Vec<String>)
        ensures
            r.len() == self.spec_description().len(),
            forall|i: int| 0 <= i < r.len() ==> (#[trigger] r[i])@ == self.spec_description()[i],
    ;

    fn get_sep(&self) -> (r: &'static str)
        ensures
            r@ == separator(self.spec_law_rating()),
    {
        let law_rating = self.law_rating();
        if law_rating == 0 {
            return NEUTRAL;
        }
        if law_rating < 0 {
            return CHAOS;
        }
        LAW
    }

    fn casting_chance_color(&self) -> (r: Color)
        ensures
            r == chance_color(self.spec_casting_chance()),
    {
        let chance = self.casting_chance();
        if chance >= 100 {
            return Color::White;
        }
        if chance >= 80 {
            return Color::Yellow;
        }
        if chance >= 60 {
            return Color::Aqua;
        }
        if chance >= 40 {
            return Color::Green;
        }
        Color::Fuchsia
    }
}

/// A spell that is all data: it summons nothing and changes no piece.
pub struct Spell {
    pub name: String,
    pub law_rating: i8,
    pub reusable: bool,
    pub casting_chance: u8,
    pub cast_range: u8,
    pub tries: u8,
    pub no_line_of_sight_needed: bool,
}

/// What a `Spell` holds, with the name as text.
pub struct SpellView {
    pub name: Seq<char>,
    pub law_rating: i8,
    pub reusable: bool,
    pub casting_chance: u8,
    pub cast_range: u8,
    pub tries: u8,
    pub no_line_of_sight_needed: bool,
}

impl View for Spell {
    type V = SpellView;

    open spec fn view(&self) -> SpellView {
        SpellView {
            name: self.name@,
            law_rating: self.law_rating,
            reusable: self.reusable,
            casting_chance: self.casting_chance,
            cast_range: self.cast_range,
            tries: self.tries,
            no_line_of_sight_needed: self.no_line_of_sight_needed,
        }
    }
}

impl Clone for Spell {
    fn clone(&self) -> (r: Self)
        ensures
            r == *self,
    {
        Spell {
            name: self.name.clone(),
            law_rating: self.law_rating,
            reusable: self.reusable,
            casting_chance: self.casting_chance,
            cast_range: self.cast_range,
            tries: self.tries,
            no_line_of_sight_needed: self.no_line_of_sight_needed,
        }
    }
}

impl Default for Spell {
    fn default() -> (r: Self)
        ensures
            r@ == (SpellView {
                name: Seq::empty(),
                law_rating: 0,
                reusable: false,
                casting_chance: 0,
                cast_range: 0,
                tries: 0,
                no_line_of_sight_needed: false,
            }),
    {
        Spell {
            name: String::new(),
            law_rating: 0,
            reusable: false,
            casting_chance: 0,
            cast_range: 0,
            tries: 0,
            no_line_of_sight_needed: false,
        }
    }
}

impl Spell {
    /// Casting it brings no piece into play.
    pub fn cast(&self) -> (r: Option<Entity>)
        ensures
            r.is_none(),
    {
        None
    }
}

impl ASpell for Spell {
    open spec fn spec_name(&self) -> Seq<char> {
        self.name@
    }

    open spec fn spec_law_rating(&self) -> i8 {
        self.law_rating
    }

    open spec fn spec_reusable(&self) -> bool {
        self.reusable
    }

    open spec fn spec_cast_range(&self) -> u8 {
        self.cast_range
    }

    open spec fn spec_can_be_illusion(&self) -> bool {
        false
    }

    open spec fn spec_casting_chance(&self) -> u8 {
        self.casting_chance
    }

    open spec fn spec_description(&self) -> Seq<Seq<char>> {
        Seq::empty()
    }

    fn name(&self) -> (r: String) {
        self.name.clone()
    }

    fn law_rating(&self) -> (r: i8) {
        self.law_rating
    }

    fn reusable(&self) -> (r: bool) {
        self.reusable
    }

    fn cast_range(&self) -> (r: u8) {
        self.cast_range
    }

    fn can_be_illusion(&self) -> (r: bool) {
        false
    }

    fn casting_chance(&self) -> (r: u8) {
        self.casting_chance
    }

    fn get_description(&self) -> (r: Vec<String>) {
        Vec::new()
    }
}

/// What a spell cast on the caster does to the caster's own piece.
#[derive(Debug, PartialEq, Eq, Structural, Clone, Copy)]
pub enum SelfEffect {
    MagicBow,
    MagicKnife,
    MagicSword,
    MagicWings,
    MagicShield,
    MagicArmour,
}

/// The number of frames in the animation of a wizard that carries a magic
/// weapon or wings.
pub const WIZARD_FRAMES: usize = 4;

impl SelfEffect {
    /// The piece after the effect: the bow lets it shoot, the wings let it
    /// fly six squares, and each effect changes or ends its animation.
    pub open spec fn on(self, piece: Piece) -> Piece {
        match self {
            SelfEffect::MagicBow => Piece {
                ranged: Some(RangedCombat { range: 6, ranged_combat: 3 }),
                animation: Some(RepeatAnimation { max: 183, init: 180 }),
                ..piece
            },
            SelfEffect::MagicKnife => Piece {
                animation: Some(RepeatAnimation { max: 187, init: 184 }),
                ..piece
            },
            SelfEffect::MagicSword => Piece {
                animation: Some(RepeatAnimation { max: 193, init: 190 }),
                ..piece
            },
            SelfEffect::MagicWings => Piece {
                animation: Some(RepeatAnimation { max: 197, init: 194 }),
                moveable: MoveableComponent { flying: true, movement: 6 },
                ..piece
            },
            SelfEffect::MagicShield => Piece { animation: None, ..piece },
            SelfEffect::MagicArmour => Piece { animation: None, ..piece },
        }
    }

    /// Works the effect on `piece`.
    pub fn apply(self, piece: &mut Piece)
        ensures
            *final(piece) == self.on(*old(piece)),
    {
        match self {
            SelfEffect::MagicBow => implement_magic_bow(piece),
            SelfEffect::MagicKnife => implement_magic_knife(piece),
            SelfEffect::MagicSword => implement_magic_sword(piece),
            SelfEffect::MagicWings => implement_magic_wings(piece),
            SelfEffect::MagicShield => implement_magic_shield(piece),
            SelfEffect::MagicArmour => implement_magic_armour(piece),
        }
    }
}

pub fn implement_magic_bow(piece: &mut Piece)
    ensures
        *final(piece) == SelfEffect::MagicBow.on(*old(piece)),
{
    piece.ranged = Some(RangedCombat { range: 6, ranged_combat: 3 });
    piece.animation = Some(RepeatAnimation::new(180, WIZARD_FRAMES));
}

pub fn implement_magic_knife(piece: &mut Piece)
    ensures
        *final(piece) == SelfEffect::MagicKnife.on(*old(piece)),
{
    piece.animation = Some(RepeatAnimation::new(184, WIZARD_FRAMES));
}

pub fn implement_magic_sword(piece: &mut Piece)
    ensures
        *final(piece) == SelfEffect::MagicSword.on(*old(piece)),
{
    piece.animation = Some(RepeatAnimation::new(190, WIZARD_FRAMES));
}

pub fn implement_magic_wings(piece: &mut Piece)
    ensures
        *final(piece) == SelfEffect::MagicWings.on(*old(piece)),
{
    piece.animation = Some(RepeatAnimation::new(194, WIZARD_FRAMES));
    piece.moveable = MoveableComponent { flying: true, movement: 6 };
}

pub fn implement_magic_shield(piece: &mut Piece)
    ensures
        *final(piece) == SelfEffect::MagicShield.on(*old(piece)),
{
    piece.animation = None;
}

pub fn implement_magic_armour(piece: &mut Piece)
    ensures
        *final(piece) == SelfEffect::MagicArmour.on(*old(piece)),
{
    piece.animation = None;
}

/// Any spell: all data, a summons, or an effect on the caster.
pub enum SpellBox {
    Data(Spell),
    Summon(CreatureSpell),
    Own(PlayerSpell),
}

/// What a `SpellBox` holds, with names as text.
pub enum SpellBoxView {
    Data(SpellView),
    Summon(CreatureView),
    Own(PlayerSpellView),
}

impl View for SpellBox {
    type V = SpellBoxView;

    open spec fn view(&self) -> SpellBoxView {
        match self {
            SpellBox::Data(s) => SpellBoxView::Data(s@),
            SpellBox::Summon(s) => SpellBoxView::Summon(s.creature@),
            SpellBox::Own(s) => SpellBoxView::Own(s@),
        }
    }
}

impl Clone for SpellBox {
    fn clone(&self) -> (r: Self)
        ensures
            r == *self,
    {
        match self {
            SpellBox::Data(s) => SpellBox::Data(s.clone()),
            SpellBox::Summon(s) => SpellBox::Summon(s.clone()),
            SpellBox::Own(s) => SpellBox::Own(s.clone()),
        }
    }
}

impl SpellBox {
    /// A summons has a creature whose sprites can be numbered.
    pub open spec fn wf(&self) -> bool {
        self matches SpellBox::Summon(s) ==> s.creature.wf()
    }

    /// The arena after the spell was cast by `caster`: a summons adds its
    /// creature under `summoned`, an effect on the caster changes the
    /// caster's piece, and a spell that is all data changes nothing.
    pub open spec fn world_after(
        &self,
        illusion: bool,
        caster: Entity,
        world: Map<Entity, Piece>,
        summoned: Option<Entity>,
    ) -> Map<Entity, Piece> {
        match self {
            SpellBox::Data(_) => world,
            SpellBox::Summon(s) => world.insert(summoned.unwrap(), s.creature.piece(illusion)),
            SpellBox::Own(s) => world.insert(caster, s.imp.on(world[caster])),
        }
    }

    /// Casts the spell for `caster`. Returns the piece that was summoned,
    /// if the spell summons one.
    pub fn cast(&self, illusion: bool, caster: Entity, world: &mut World) -> (r: Option<Entity>)
        requires
            self.wf(),
            old(world).wf(),
            self is Summon ==> old(world).has_room(),
            self is Own ==> old(world)@.contains_key(caster),
        ensures
            final(world).wf(),
            r.is_some() == (self is Summon),
            r matches Some(e) ==> !old(world)@.contains_key(e),
            final(world)@ == self.world_after(illusion, caster, old(world)@, r),
            final(world).room() == old(world).room() - (if self is Summon {
                1int
            } else {
                0int
            }),
    {
        match self {
            SpellBox::Data(s) => s.cast(),
            SpellBox::Summon(s) => s.cast(illusion, world),
            SpellBox::Own(s) => s.cast(caster, world),
        }
    }
}

impl ASpell for SpellBox {
    open spec fn spec_name(&self) -> Seq<char> {
        match self {
            SpellBox::Data(s) => s.spec_name(),
            SpellBox::Summon(s) => s.spec_name(),
            SpellBox::Own(s) => s.spec_name(),
        }
    }

    open spec fn spec_law_rating(&self) -> i8 {
        match self {
            SpellBox::Data(s) => s.spec_law_rating(),
            SpellBox::Summon(s) => s.spec_law_rating(),
            SpellBox::Own(s) => s.spec_law_rating(),
        }
    }

    open spec fn spec_reusable(&self) -> bool {
        match self {
            SpellBox::Data(s) => s.spec_reusable(),
            SpellBox::Summon(s) => s.spec_reusable(),
            SpellBox::Own(s) => s.spec_reusable(),
        }
    }

    open spec fn spec_cast_range(&self) -> u8 {
        match self {
            SpellBox::Data(s) => s.spec_cast_range(),
            SpellBox::Summon(s) => s.spec_cast_range(),
            SpellBox::Own(s) => s.spec_cast_range(),
        }
    }

    open spec fn spec_can_be_illusion(&self) -> bool {
        match self {
            SpellBox::Data(s) => s.spec_can_be_illusion(),
            SpellBox::Summon(s) => s.spec_can_be_illusion(),
            SpellBox::Own(s) => s.spec_can_be_illusion(),
        }
    }

    open spec fn spec_casting_chance(&self) -> u8 {
        match self {
            SpellBox::Data(s) => s.spec_casting_chance(),
            SpellBox::Summon(s) => s.spec_casting_chance(),
            SpellBox::Own(s) => s.spec_casting_chance(),
        }
    }

    open spec fn spec_description(&self) -> Seq<Seq<char>> {
        match self {
            SpellBox::Data(s) => s.spec_description(),
            SpellBox::Summon(s) => s.spec_description(),
            SpellBox::Own(s) => s.spec_description(),
        }
    }

    fn name(&self) -> (r: String) {
        match self {
            SpellBox::Data(s) => s.name(),
            SpellBox::Summon(s) => s.name(),
            SpellBox::Own(s) => s.name(),
        }
    }

    fn law_rating(&self) -> (r: i8) {
        match self {
            SpellBox::Data(s) => s.law_rating(),
            SpellBox::Summon(s) => s.law_rating(),
            SpellBox::Own(s) => s.law_rating(),
        }
    }

    fn reusable(&self) -> (r: bool) {
        match self {
            SpellBox::Data(s) => s.reusable(),
            SpellBox::Summon(s) => s.reusable(),
            SpellBox::Own(s) => s.reusable(),
        }
    }

    fn cast_range(&self) -> (r: u8) {
        match self {
            SpellBox::Data(s) => s.cast_range(),
            SpellBox::Summon(s) => s.cast_range(),
            SpellBox::Own(s) => s.cast_range(),
        }
    }

    fn can_be_illusion(&self) -> (r: bool) {
        match self {
            SpellBox::Data(s) => s.can_be_illusion(),
            SpellBox::Summon(s) => s.can_be_illusion(),
            SpellBox::Own(s) => s.can_be_illusion(),
        }
    }

    fn casting_chance(&self) -> (r: u8) {
        match self {
            SpellBox::Data(s) => s.casting_chance(),
            SpellBox::Summon(s) => s.casting_chance(),
            SpellBox::Own(s) => s.casting_chance(),
        }
    }

    fn get_description(&self) -> (r: Vec<String>) {
        match self {
            SpellBox::Data(s) => s.get_description(),
            SpellBox::Summon(s) => s.get_description(),
            SpellBox::Own(s) => s.get_description(),
        }
    }
}

/// The catalogue of all spells. The first entry is the one spell that every
/// book holds.
pub struct AllSpells(pub Vec<SpellBox>);

impl View for AllSpells {
    type V = Seq<SpellBoxView>;

    open spec fn view(&self) -> Seq<SpellBoxView> {
        self.0@.map_values(|s: SpellBox| s@)
    }
}

impl AllSpells {
    /// The catalogue has its first entry, and every creature in it has
    /// sprites that can be numbered.
    pub open spec fn wf(&self) -> bool {
        &&& self.0.len() >= 1
        &&& forall|i: int| 0 <= i < self.0.len() ==> (#[trigger] self.0[i]).wf()
    }

    pub fn len(&self) -> (n: usize)
        ensures
            n == self.0.len(),
    {
        self.0.len()
    }
}

/// A spell that is all data, as the catalogue lists it.
pub open spec fn data_spell(
    name: Seq<char>,
    law_rating: int,
    reusable: bool,
    casting_chance: u8,
    cast_range: u8,
    tries: u8,
    no_line_of_sight_needed: bool,
) -> SpellBoxView {
    SpellBoxView::Data(
        SpellView {
            name,
            law_rating: law_rating as i8,
            reusable,
            casting_chance,
            cast_range,
            tries,
            no_line_of_sight_needed,
        },
    )
}

/// A spell on the caster's own piece, as the catalogue lists it.
pub open spec fn own_spell(
    name: Seq<char>,
    law_rating: int,
    casting_chance: u8,
    imp: SelfEffect,
) -> SpellBoxView {
    SpellBoxView::Own(
        PlayerSpellView { name, law_rating: law_rating as i8, casting_chance, imp },
    )
}

/// The spells that are in every catalogue, in their order.
pub open spec fn builtin_spells() -> Seq<SpellBoxView> {
    seq![
        data_spell("Disbelieve"@, 0, true, 100, 0, 0, false),
        data_spell("Raise Dead"@, -1, false, 60, 4, 0, false),
        data_spell("Subversion"@, 0, false, 0, 7, 0, false),
        data_spell("Vengence"@, 0, false, 80, 20, 0, true),
        data_spell("Decree"@, 1, false, 80, 20, 0, true),
        data_spell("Dark Power"@, -2, false, 50, 20, 3, true),
        data_spell("Justice"@, 2, false, 50, 20, 3, true),
        data_spell("Law-1"@, 2, false, 100, 0, 0, false),
        data_spell("Law-2"@, 4, false, 100, 0, 0, false),
        data_spell("Chaos-1"@, -2, false, 100, 0, 0, false),
        data_spell("Chaos-2"@, -4, false, 100, 0, 0, false),
        data_spell("Lightning"@, 0, false, 100, 4, 0, false),
        data_spell("Magic Bolt"@, 0, false, 100, 6, 0, false),
        data_spell("Magic Wood"@, 1, false, 80, 0, 0, false),
        own_spell("Magic Bow"@, 1, 50, SelfEffect::MagicBow),
        own_spell("Magic Knife"@, 1, 90, SelfEffect::MagicKnife),
        own_spell("Magic Sword"@, 1, 50, SelfEffect::MagicSword),
        own_spell("Magic Wings"@, 0, 60, SelfEffect::MagicSword),
        own_spell("Magic Shield"@, 1, 80, SelfEffect::MagicShield),
        own_spell("Magic Armour"@, 1, 40, SelfEffect::MagicArmour),
        own_spell("Magic Wings"@, 1, 60, SelfEffect::MagicWings),
    ]
}

/// The whole catalogue: the spells that are always there, then one summons
/// for each creature of the table, in the table's order.
pub open spec fn catalogue(creatures: Seq<CreatureView>) -> Seq<SpellBoxView> {
    builtin_spells() + creatures.map_values(|c: CreatureView| SpellBoxView::Summon(c))
}

fn data(
    name: &str,
    law_rating: i8,
    reusable: bool,
    casting_chance: u8,
    cast_range: u8,
    tries: u8,
    no_line_of_sight_needed: bool,
) -> (s: SpellBox)
    ensures
        s.wf(),
        s@ == data_spell(
            name@,
            law_rating as int,
            reusable,
            casting_chance,
            cast_range,
            tries,
            no_line_of_sight_needed,
        ),
{
    SpellBox::Data(
        Spell {
            name: name.to_string(),
            law_rating,
            reusable,
            casting_chance,
            cast_range,
            tries,
            no_line_of_sight_needed,
        },
    )
}

fn own(name: &str, law_rating: i8, casting_chance: u8, imp: SelfEffect) -> (s: SpellBox)
    ensures
        s.wf(),
        s@ == own_spell(name@, law_rating as int, casting_chance, imp),
{
    SpellBox::Own(PlayerSpell { name: name.to_string(), law_rating, casting_chance, imp })
}

/// Builds the catalogue from the creature table.
pub fn load_all_spells(creatures: Vec<Creature>) -> (all: AllSpells)
    requires
        forall|i: int| 0 <= i < creatures.len() ==> (#[trigger] creatures[i]).wf(),
    ensures
        all.wf(),
        all@ == catalogue(creatures@.map_values(|c: Creature| c@)),
{
    let mut spells: Vec<SpellBox> = Vec::new();
    spells.push(data("Disbelieve", 0, true, 100, 0, 0, false));
    spells.push(data("Raise Dead", -1, false, 60, 4, 0, false));
    spells.push(data("Subversion", 0, false, 0, 7, 0, false));
    spells.push(data("Vengence", 0, false, 80, 20, 0, true));
    spells.push(data("Decree", 1, false, 80, 20, 0, true));
    spells.push(data("Dark Power", -2, false, 50, 20, 3, true));
    spells.push(data("Justice", 2, false, 50, 20, 3, true));
    spells.push(data("Law-1", 2, false, 100, 0, 0, false));
    spells.push(data("Law-2", 4, false, 100, 0, 0, false));
    spells.push(data("Chaos-1", -2, false, 100, 0, 0, false));
    spells.push(data("Chaos-2", -4, false, 100, 0, 0, false));
    spells.push(data("Lightning", 0, false, 100, 4, 0, false));
    spells.push(data("Magic Bolt", 0, false, 100, 6, 0, false));
    spells.push(data("Magic Wood", 1, false, 80, 0, 0, false));
    spells.push(own("Magic Bow", 1, 50, SelfEffect::MagicBow));
    spells.push(own("Magic Knife", 1, 90, SelfEffect::MagicKnife));
    spells.push(own("Magic Sword", 1, 50, SelfEffect::MagicSword));
    spells.push(own("Magic Wings", 0, 60, SelfEffect::MagicSword));
    spells.push(own("Magic Shield", 1, 80, SelfEffect::MagicShield));
    spells.push(own("Magic Armour", 1, 40, SelfEffect::MagicArmour));
    spells.push(own("Magic Wings", 1, 60, SelfEffect::MagicWings));
    assert(spells@.map_values(|s: SpellBox| s@) =~= builtin_spells());
    let ghost fixed = spells@;
    let mut i: usize = 0;
    while i < creatures.len()
        invariant
            i <= creatures.len(),
            spells.len() == 21 + i,
            fixed.len() == 21,
            forall|k: int| 0 <= k < creatures.len() ==> (#[trigger] creatures[k]).wf(),
            forall|k: int| 0 <= k < spells.len() ==> (#[trigger] spells[k]).wf(),
            forall|k: int| 0 <= k < 21 ==> spells[k] == fixed[k],
            forall|k: int|
                0 <= k < i ==> #[trigger] spells[21 + k] == SpellBox::Summon(
                    CreatureSpell { creature: creatures[k] },
                ),
        decreases creatures.len() - i,
    {
        spells.push(creatures[i].to_spell());
        i += 1;
    }
    assert(spells@.map_values(|s: SpellBox| s@) =~= catalogue(
        creatures@.map_values(|c: Creature| c@),
    )) by {
        assert forall|k: int| 0 <= k < spells.len() implies spells[k]@ == catalogue(
            creatures@.map_values(|c: Creature| c@),
        )[k] by {
            if k < 21 {
                assert(spells[k] == fixed[k]);
                assert(fixed.map_values(|s: SpellBox| s@)[k] == builtin_spells()[k]);
            } else {
                assert(spells[21 + (k - 21)] == SpellBox::Summon(
                    CreatureSpell { creature: creatures[k - 21] },
                ));
            }
        }
    }
    AllSpells(spells)
}

} // verus!
