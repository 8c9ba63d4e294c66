//! The wizards: their books of spells, their strengths, and what they cast.

use vstd::prelude::*;
use crate::board::{on_board, MoveableComponent};
use crate::chance::{choose_multiple, drawn_at, random_in_range};
use crate::display::Color;
use crate::entity::{Entity, Piece, World};
use crate::spell::{ASpell, AllSpells, SelfEffect, SpellBox};
use crate::system::{BelongsToPlayer, Named};
use crate::vec::Vec2I;

verus! {

/// The number of spells a wizard draws besides the one that every book holds.
pub const SPELLS_DRAWN: usize = 13;

/// The sprite of the first wizard figure; the others follow it.
pub const WIZARD_SPRITE: usize = 169;

/// A wizard's book: the spells left in it, the one chosen for the next
/// cast, and whether that cast is to be an illusion.
pub struct SpellList {
    pub spells: Vec<SpellBox>,
    pub chosen_spell: Option<usize>,
    pub illusion: bool,
}

impl SpellList {
    /// A chosen spell is in the book, and every creature in the book has
    /// sprites that can be numbered.
    pub open spec fn wf(&self) -> bool {
        &&& self.chosen_spell matches Some(idx) ==> idx < self.spells.len()
        &&& forall|i: int| 0 <= i < self.spells.len() ==> (#[trigger] self.spells[i]).wf()
    }

    /// The spells left once the chosen one was cast: all of them where it
    /// can be used again, all but it where not.
    pub open spec fn spells_after_cast(&self) -> Seq<SpellBox> {
        let idx = self.chosen_spell.unwrap() as int;
        if self.spells[idx].spec_reusable() {
            self.spells@
        } else {
            self.spells@.remove(idx)
        }
    }

    pub fn set_chosen(&mut self, idx: usize)
        ensures
            final(self).chosen_spell == Some(idx),
            final(self).spells == old(self).spells,
            final(self).illusion == old(self).illusion,
    {
        self.chosen_spell = Some(idx);
    }

    /// The spell chosen for the next cast, if one is.
    pub fn get_chosen_spell(&self) -> (r: Option<&SpellBox>)
        requires
            self.wf(),
        ensures
            r == (match self.chosen_spell {
                Some(idx) => Some(&self.spells[idx as int]),
                None => None,
            }),
    {
        match self.chosen_spell {
            Some(idx) => Some(self.get_spell(idx)),
            None => None,
        }
    }

    pub fn get_spell(&self, idx: usize) -> (r: &SpellBox)
        requires
            idx < self.spells.len(),
        ensures
            *r == self.spells[idx as int],
    {
        &self.spells[idx]
    }

    pub fn len(&self) -> (n: usize)
        ensures
            n == self.spells.len(),
    {
        self.spells.len()
    }

    /// Hands out the chosen spell for casting. It leaves the book, unless
    /// it can be used again; either way no spell is chosen any more.
    pub fn pop_chosen_spell(&mut self) -> (r: SpellBox)
        requires
            old(self).wf(),
            old(self).chosen_spell.is_some(),
        ensures
            r == old(self).spells[old(self).chosen_spell.unwrap() as int],
            final(self).spells@ == old(self).spells_after_cast(),
            final(self).chosen_spell.is_none(),
            final(self).illusion == old(self).illusion,
            final(self).wf(),
    {
        let idx = self.chosen_spell.unwrap();
        self.chosen_spell = None;
        if !self.spells[idx].reusable() {
            return self.spells.remove(idx);
        }
        self.spells[idx].clone()
    }
}

/// Casting the chosen spell takes exactly that entry out of the book where
/// the spell cannot be used again: the book is one shorter, the entries
/// before it stay, and those behind it move up by one. Where the spell can
/// be used again, the book is as before.
pub proof fn lemma_cast_consumes_one(book: SpellList)
    requires
        book.wf(),
        book.chosen_spell is Some,
    ensures
        ({
            let idx = book.chosen_spell.unwrap() as int;
            let after = book.spells_after_cast();
            if book.spells[idx].spec_reusable() {
                after == book.spells@
            } else {
                &&& after.len() == book.spells.len() - 1
                &&& forall|i: int| 0 <= i < idx ==> after[i] == book.spells[i]
                &&& forall|i: int| idx <= i < after.len() ==> after[i] == book.spells[i + 1]
            }
        }),
{
}

/// Why a spell was not cast.
#[derive(Debug, PartialEq, Eq, Structural, Clone, Copy)]
pub enum CastFailed {
    /// The target lies further from the caster than the spell reaches.
    OutOfRange,
    /// The target square is taken.
    NotThere,
}

/// A wizard and the one who plays it.
pub struct Player {
    pub name: String,
    pub computer_controlled: bool,
    pub character_icon: u8,
    pub color: Color,
    pub spells: SpellList,
    pub handle: Option<Entity>,
    pub creations: Vec<Entity>,
    pub law_chaos: i8,
    pub defence: u8,
    pub combat: u8,
    pub manoeuvre: u8,
    pub magic_resistance: u8,
}

/// `a + b`, held within the limits of `i8`.
pub open spec fn clamped_sum(a: i8, b: i8) -> i8 {
    if a + b > i8::MAX {
        i8::MAX
    } else if a + b < i8::MIN {
        i8::MIN
    } else {
        (a + b) as i8
    }
}

fn add_clamped(a: i8, b: i8) -> (r: i8)
    ensures
        r == clamped_sum(a, b),
{
    let sum: i16 = a as i16 + b as i16;
    if sum > 127 {
        127
    } else if sum < -128 {
        -128
    } else {
        sum as i8
    }
}

/// The book made of the catalogue's first spell and the spells at `picks`.
pub open spec fn book_of(catalog: Seq<SpellBox>, picks: Seq<usize>) -> Seq<SpellBox> {
    seq![catalog[0]] + picks.map_values(|i: usize| catalog[i as int])
}

/// `picks` is a draw from a catalogue of `n` spells: thirteen of them, or
/// all but the first where there are fewer, none twice and never the first.
pub open spec fn fair_picks(picks: Seq<usize>, n: int) -> bool {
    &&& picks.len() == (if SPELLS_DRAWN <= n - 1 {
        SPELLS_DRAWN as int
    } else {
        n - 1
    })
    &&& picks.no_duplicates()
    &&& forall|k: int| 0 <= k < picks.len() ==> 1 <= #[trigger] picks[k] < n
}

/// The book of a wizard who drew the spells at `picks`.
pub fn spells_from_picks(allspells: &AllSpells, picks: &Vec<usize>) -> (book: Vec<SpellBox>)
    requires
        allspells.0.len() >= 1,
        forall|k: int| 0 <= k < picks.len() ==> (#[trigger] picks[k]) < allspells.0.len(),
    ensures
        book@ == book_of(allspells.0@, picks@),
{
    let mut sample: Vec<SpellBox> = Vec::new();
    sample.push(allspells.0[0].clone());
    let mut k: usize = 0;
    while k < picks.len()
        invariant
            k <= picks.len(),
            allspells.0.len() >= 1,
            forall|j: int| 0 <= j < picks.len() ==> (#[trigger] picks[j]) < allspells.0.len(),
            sample@ == book_of(allspells.0@, picks@.subrange(0, k as int)),
        decreases picks.len() - k,
    {
        sample.push(allspells.0[picks[k]].clone());
        k += 1;
        assert(sample@ =~= book_of(allspells.0@, picks@.subrange(0, k as int)));
    }
    assert(picks@.subrange(0, k as int) =~= picks@);
    sample
}

impl Player {
    /// The wizard's own piece, before it answers to anybody: it walks one
    /// square at a time, and neither fights nor defends.
    pub open spec fn piece(&self) -> Piece {
        Piece {
            named: Named { name: self.name },
            moveable: MoveableComponent { movement: 1, flying: false },
            belongs: None,
            attack: None,
            defend: None,
            ranged: None,
            creature: None,
            animation: None,
            sprite: (WIZARD_SPRITE + self.character_icon) as usize,
            color: self.color,
            has_moved: false,
        }
    }

    /// The same one as `other` in name, looks, piece and strengths.
    pub open spec fn same_wizard(&self, other: &Player) -> bool {
        &&& self.name == other.name
        &&& self.computer_controlled == other.computer_controlled
        &&& self.character_icon == other.character_icon
        &&& self.color == other.color
        &&& self.handle == other.handle
        &&& self.defence == other.defence
        &&& self.combat == other.combat
        &&& self.manoeuvre == other.manoeuvre
        &&& self.magic_resistance == other.magic_resistance
    }

    /// The spell chosen for the next cast.
    pub open spec fn chosen(&self) -> SpellBox {
        self.spells.spells[self.spells.chosen_spell.unwrap() as int]
    }

    /// The arena after the wizard cast the chosen spell: what the spell does
    /// to it, and a piece that was summoned answers to the wizard.
    pub open spec fn world_after_cast(
        &self,
        world: Map<Entity, Piece>,
        summoned: Option<Entity>,
    ) -> Map<Entity, Piece> {
        let caster = self.handle.unwrap();
        let after = self.chosen().world_after(self.spells.illusion, caster, world, summoned);
        match summoned {
            Some(e) => after.insert(
                e,
                Piece { belongs: Some(BelongsToPlayer { player_entity: caster }), ..after[e] },
            ),
            None => after,
        }
    }

    /// The wizard's alignment after the chosen spell was cast: a spell that
    /// is all data moves it by its law rating, as far as `i8` goes.
    pub open spec fn law_chaos_after_cast(&self) -> i8 {
        if self.chosen() is Data {
            clamped_sum(self.law_chaos, self.chosen().spec_law_rating())
        } else {
            self.law_chaos
        }
    }

    /// Casts the chosen spell from the square `from` at the square `to`.
    ///
    /// A target further away than the spell reaches is refused with
    /// `OutOfRange`, and nothing changes. Otherwise the spell leaves the
    /// book unless it can be used again, no spell is chosen any more and the
    /// choice of illusion is used up; a summoned piece answers to the wizard
    /// and is listed among the wizard's creations.
    pub fn cast(&mut self, from: Vec2I, to: Vec2I, world: &mut World) -> (r: Result<
        Option<Entity>,
        CastFailed,
    >)
        requires
            old(self).spells.wf(),
            old(self).spells.chosen_spell.is_some(),
            old(self).handle matches Some(h) && old(world)@.contains_key(h),
            old(world).wf(),
            old(self).chosen() is Summon ==> old(world).has_room(),
            to.spec_distance(from) <= u8::MAX,
        ensures
            final(world).wf(),
            final(world).room() >= old(world).room() - 1,
            final(self).same_wizard(old(self)),
            final(self).spells.wf(),
            to.spec_distance(from) > old(self).chosen().spec_cast_range() ==> {
                &&& r == Err::<Option<Entity>, CastFailed>(CastFailed::OutOfRange)
                &&& *final(self) == *old(self)
                &&& *final(world) == *old(world)
            },
            to.spec_distance(from) <= old(self).chosen().spec_cast_range() ==> {
                &&& r matches Ok(summoned)
                &&& summoned.is_some() == (old(self).chosen() is Summon)
                &&& summoned matches Some(e) ==> !old(world)@.contains_key(e)
                &&& final(world)@ == old(self).world_after_cast(old(world)@, summoned)
                &&& final(self).spells.spells@ == old(self).spells.spells_after_cast()
                &&& final(self).spells.chosen_spell.is_none()
                &&& !final(self).spells.illusion
                &&& final(self).creations@ == (match summoned {
                    Some(e) => old(self).creations@.push(e),
                    None => old(self).creations@,
                })
                &&& final(self).law_chaos == old(self).law_chaos_after_cast()
            },
    {
        let range = self.spells.get_chosen_spell().unwrap().cast_range();
        let dist = to.distance(from);
        if dist > range {
            return Err(CastFailed::OutOfRange);
        }
        let caster = self.handle.unwrap();
        let illusion = self.spells.illusion;
        let spell = self.spells.pop_chosen_spell();
        self.spells.illusion = false;
        let e = spell.cast(illusion, caster, world);
        match &spell {
            SpellBox::Data(data) => {
                self.law_chaos = add_clamped(self.law_chaos, data.law_rating);
            },
            _ => {},
        }
        if let Some(entity) = e {
            let piece = world.get_mut(entity);
            piece.belongs = Some(BelongsToPlayer { player_entity: caster });
            self.creations.push(entity);
        }
        Ok(e)
    }

    /// A wizard with the given strengths, an empty book and no piece yet.
    pub fn with_stats(
        name: String,
        cc: bool,
        icon: u8,
        color: Color,
        defence: u8,
        combat: u8,
        manoeuvre: u8,
        magic_resistance: u8,
    ) -> (p: Self)
        ensures
            p.name == name,
            p.computer_controlled == cc,
            p.character_icon == icon,
            p.color == color,
            p.spells.spells@ == Seq::<SpellBox>::empty(),
            p.spells.chosen_spell.is_none(),
            !p.spells.illusion,
            p.handle.is_none(),
            p.creations@ == Seq::<Entity>::empty(),
            p.law_chaos == 0,
            p.defence == defence,
            p.combat == combat,
            p.manoeuvre == manoeuvre,
            p.magic_resistance == magic_resistance,
    {
        Self {
            name,
            computer_controlled: cc,
            character_icon: icon,
            color,
            spells: SpellList { spells: Vec::new(), chosen_spell: None, illusion: false },
            handle: None,
            creations: Vec::new(),
            law_chaos: 0,
            defence,
            combat,
            manoeuvre,
            magic_resistance,
        }
    }

    /// A wizard with strengths rolled within their limits: defence and
    /// combat from 1 to 5, manoeuvre from 3 to 7, magic resistance from 6
    /// to 8.
    pub fn new(name: String, cc: bool, icon: u8, color: Color) -> (p: Self)
        ensures
            p.name == name,
            p.computer_controlled == cc,
            p.character_icon == icon,
            p.color == color,
            p.spells.spells@ == Seq::<SpellBox>::empty(),
            p.spells.chosen_spell.is_none(),
            !p.spells.illusion,
            p.handle.is_none(),
            p.creations@ == Seq::<Entity>::empty(),
            p.law_chaos == 0,
            1 <= p.defence <= 5,
            1 <= p.combat <= 5,
            3 <= p.manoeuvre <= 7,
            6 <= p.magic_resistance <= 8,
    {
        let defence = random_in_range(1, 6);
        let combat = random_in_range(1, 6);
        let manoeuvre = random_in_range(3, 8);
        let magic_resistance = random_in_range(6, 9);
        Self::with_stats(name, cc, icon, color, defence, combat, manoeuvre, magic_resistance)
    }

    /// Fills the book: the catalogue's first spell, then a fair draw from
    /// the rest.
    pub fn pick_spells(&mut self, allspells: &AllSpells)
        requires
            allspells.wf(),
        ensures
            exists|picks: Seq<usize>|
                fair_picks(picks, allspells.0.len() as int) && final(self).spells.spells@
                    == #[trigger] book_of(allspells.0@, picks),
            final(self).spells.spells.len() == 1 + (if SPELLS_DRAWN <= allspells.0.len() - 1 {
                SPELLS_DRAWN as int
            } else {
                allspells.0.len() - 1
            }),
            final(self).spells.spells[0] == allspells.0[0],
            final(self).spells.chosen_spell == old(self).spells.chosen_spell,
            final(self).spells.illusion == old(self).spells.illusion,
            old(self).spells.chosen_spell.is_none() ==> final(self).spells.wf(),
            final(self).same_wizard(old(self)),
            final(self).creations == old(self).creations,
            final(self).law_chaos == old(self).law_chaos,
    {
        let n = allspells.0.len();
        let mut pool: Vec<usize> = Vec::new();
        let mut i: usize = 1;
        while i < n
            invariant
                1 <= i <= n,
                pool.len() == i - 1,
                forall|j: int| 0 <= j < pool.len() ==> #[trigger] pool[j] == j + 1,
            decreases n - i,
        {
            pool.push(i);
            i += 1;
        }
        let picks = choose_multiple(&pool, SPELLS_DRAWN);
        proof {
            let positions = choose|positions: Seq<int>| drawn_at(picks@, pool@, positions);
            assert forall|k: int| 0 <= k < picks.len() implies 1 <= #[trigger] picks[k] < n by {
                assert(picks[k] == pool[positions[k]]);
            }
            assert forall|j: int, k: int|
                0 <= j < picks.len() && 0 <= k < picks.len() && j != k implies picks[j]
                != picks[k] by {
                assert(picks[j] == pool[positions[j]]);
                assert(picks[k] == pool[positions[k]]);
                assert(positions[j] != positions[k]);
            }
            assert(fair_picks(picks@, n as int));
        }
        let sample = spells_from_picks(allspells, &picks);
        proof {
            assert forall|k: int| 0 <= k < sample.len() implies (#[trigger] sample[k]).wf() by {
                if k > 0 {
                    assert(sample[k] == allspells.0[picks[k - 1] as int]);
                }
            }
        }
        self.spells.spells = sample;
    }

    /// Brings the wizard's own piece into the arena and remembers it.
    pub fn spawn(&mut self, world: &mut World)
        requires
            old(world).wf(),
            old(world).has_room(),
        ensures
            final(world).wf(),
            final(world).room() == old(world).room() - 1,
            final(self).handle matches Some(e) && !old(world)@.contains_key(e) && final(world)@
                == old(world)@.insert(e, old(self).piece()),
            *final(self) == (Player { handle: final(self).handle, ..*old(self) }),
    {
        let piece = Piece {
            named: Named { name: self.name.clone() },
            moveable: MoveableComponent { movement: 1, flying: false },
            belongs: None,
            attack: None,
            defend: None,
            ranged: None,
            creature: None,
            animation: None,
            sprite: WIZARD_SPRITE + self.character_icon as usize,
            color: self.color,
            has_moved: false,
        };
        let entity = world.spawn(piece);
        self.handle = Some(entity);
    }

    /// The wizard's name and the name of the chosen spell, if one is chosen.
    pub fn get_chosen_spell_name(&self) -> (r: Option<String>)
        requires
            self.spells.wf(),
        ensures
            r.is_some() == self.spells.chosen_spell.is_some(),
            r matches Some(text) ==> text@ == self.name@ + " "@ + self.spells.spells[self.spells.chosen_spell.unwrap() as int].spec_name(),
    {
        let spell = self.spells.get_chosen_spell();
        match spell {
            None => None,
            Some(spell) => {
                let mut text = self.name.clone();
                text.append(" ");
                text.append(spell.name().as_str());
                Some(text)
            },
        }
    }
}

/// The starting squares of `num` wizards, in the order of the wizards.
pub open spec fn start_positions(num: int) -> Seq<Vec2I> {
    if num == 2 {
        seq![Vec2I { x: 1, y: 5 }, Vec2I { x: 13, y: 5 }]
    } else if num == 3 {
        seq![Vec2I { x: 7, y: 8 }, Vec2I { x: 1, y: 1 }, Vec2I { x: 13, y: 1 }]
    } else if num == 4 {
        seq![
            Vec2I { x: 1, y: 8 },
            Vec2I { x: 13, y: 8 },
            Vec2I { x: 1, y: 1 },
            Vec2I { x: 13, y: 1 },
        ]
    } else if num == 5 {
        seq![
            Vec2I { x: 7, y: 9 },
            Vec2I { x: 0, y: 6 },
            Vec2I { x: 14, y: 6 },
            Vec2I { x: 3, y: 0 },
            Vec2I { x: 11, y: 0 },
        ]
    } else if num == 6 {
        seq![
            Vec2I { x: 7, y: 9 },
            Vec2I { x: 0, y: 8 },
            Vec2I { x: 14, y: 8 },
            Vec2I { x: 0, y: 1 },
            Vec2I { x: 7, y: 0 },
            Vec2I { x: 14, y: 1 },
        ]
    } else if num == 7 {
        seq![
            Vec2I { x: 7, y: 9 },
            Vec2I { x: 1, y: 8 },
            Vec2I { x: 13, y: 8 },
            Vec2I { x: 0, y: 3 },
            Vec2I { x: 14, y: 4 },
            Vec2I { x: 4, y: 0 },
            Vec2I { x: 10, y: 0 },
        ]
    } else {
        seq![
            Vec2I { x: 0, y: 9 },
            Vec2I { x: 7, y: 9 },
            Vec2I { x: 14, y: 9 },
            Vec2I { x: 0, y: 5 },
            Vec2I { x: 14, y: 5 },
            Vec2I { x: 0, y: 0 },
            Vec2I { x: 7, y: 0 },
            Vec2I { x: 14, y: 0 },
        ]
    }
}

/// The starting squares for a game of `num` wizards: one square for each,
/// all on the board and no two the same. There are tables for two to eight
/// wizards and for no other number.
pub fn get_start_positions(num: usize) -> (r: Result<Vec<Vec2I>, &'static str>)
    ensures
        r.is_ok() == (2 <= num <= 8),
        r matches Ok(positions) ==> {
            &&& positions@ == start_positions(num as int)
            &&& positions.len() == num
            &&& forall|i: int| 0 <= i < positions.len() ==> on_board(#[trigger] positions[i])
            &&& positions@.no_duplicates()
        },
        r matches Err(why) ==> why@ == "invalid number of players"@,
{
    let r = match num {
        2 => Ok(vec![Vec2I::new(1, 5), Vec2I::new(13, 5)]),
        3 => Ok(vec![Vec2I::new(7, 8), Vec2I::new(1, 1), Vec2I::new(13, 1)]),
        4 => Ok(vec![Vec2I::new(1, 8), Vec2I::new(13, 8), Vec2I::new(1, 1), Vec2I::new(13, 1)]),
        5 => Ok(
            vec![
                Vec2I::new(7, 9),
                Vec2I::new(0, 6),
                Vec2I::new(14, 6),
                Vec2I::new(3, 0),
                Vec2I::new(11, 0),
            ],
        ),
        6 => Ok(
            vec![
                Vec2I::new(7, 9),
                Vec2I::new(0, 8),
                Vec2I::new(14, 8),
                Vec2I::new(0, 1),
                Vec2I::new(7, 0),
                Vec2I::new(14, 1),
            ],
        ),
        7 => Ok(
            vec![
                Vec2I::new(7, 9),
                Vec2I::new(1, 8),
                Vec2I::new(13, 8),
                Vec2I::new(0, 3),
                Vec2I::new(14, 4),
                Vec2I::new(4, 0),
                Vec2I::new(10, 0),
            ],
        ),
        8 => Ok(
            vec![
                Vec2I::new(0, 9),
                Vec2I::new(7, 9),
                Vec2I::new(14, 9),
                Vec2I::new(0, 5),
                Vec2I::new(14, 5),
                Vec2I::new(0, 0),
                Vec2I::new(7, 0),
                Vec2I::new(14, 0),
            ],
        ),
        _ => Err("invalid number of players"),
    };
    proof {
        if r is Ok {
            assert(r->Ok_0@ =~= start_positions(num as int));
        }
    }
    r
}

/// A spell that works on the caster's own piece.
pub struct PlayerSpell {
    pub name: String,
    pub law_rating: i8,
    pub casting_chance: u8,
    pub imp: SelfEffect,
}

/// What a `PlayerSpell` holds, with the name as text.
pub struct PlayerSpellView {
    pub name: Seq<char>,
    pub law_rating: i8,
    pub casting_chance: u8,
    pub imp: SelfEffect,
}

impl View for PlayerSpell {
    type V = PlayerSpellView;

    open spec fn view(&self) -> PlayerSpellView {
        PlayerSpellView {
            name: self.name@,
            law_rating: self.law_rating,
            casting_chance: self.casting_chance,
            imp: self.imp,
        }
    }
}

impl Clone for PlayerSpell {
    fn clone(&self) -> (r: Self)
        ensures
            r == *self,
    {
        PlayerSpell {
            name: self.name.clone(),
            law_rating: self.law_rating,
            casting_chance: self.casting_chance,
            imp: self.imp,
        }
    }
}

impl PlayerSpell {
    /// Works the spell's effect on the piece of `caster`. No piece comes
    /// into play.
    pub fn cast(&self, caster: Entity, world: &mut World) -> (r: Option<Entity>)
        requires
            old(world).wf(),
            old(world)@.contains_key(caster),
        ensures
            r.is_none(),
            final(world).wf(),
            final(world).room() == old(world).room(),
            final(world)@ == old(world)@.insert(caster, self.imp.on(old(world)@[caster])),
    {
        let piece = world.get_mut(caster);
        self.imp.apply(piece);
        None
    }
}

impl ASpell for PlayerSpell {
    open spec fn spec_name(&self) -> Seq<char> {
        self.name@
    }

    open spec fn spec_law_rating(&self) -> i8 {
        self.law_rating
    }

    open spec fn spec_reusable(&self) -> bool {
        false
    }

    open spec fn spec_cast_range(&self) -> u8 {
        0
    }

    open spec fn spec_can_be_illusion(&self) -> bool {
        false
    }

    open spec fn spec_casting_chance(&self) -> u8 {
        self.casting_chance
    }

    open spec fn spec_description(&self) -> Seq<Seq<char>> {
        Seq::empty()
    }

    fn name(&self) -> (r: String) {
        self.name.clone()
    }

    fn law_rating(&self) -> (r: i8) {
        self.law_rating
    }

    fn reusable(&self) -> (r: bool) {
        false
    }

    fn cast_range(&self) -> (r: u8) {
        0
    }

    fn can_be_illusion(&self) -> (r: bool) {
        false
    }

    fn casting_chance(&self) -> (r: u8) {
        self.casting_chance
    }

    fn get_description(&self) -> (r: Vec<String>) {
        Vec::new()
    }
}

} // verus!
