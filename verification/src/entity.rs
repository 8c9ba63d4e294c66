//! The pieces in play: their identifiers, their attributes, and the arena
//! that holds them.

use vstd::prelude::*;
use crate::board::MoveableComponent;
use crate::creature::CreatureComponent;
use crate::display::{Color, RepeatAnimation};
use crate::system::{BelongsToPlayer, CanAttack, CanDefend, Named, RangedCombat};

verus! {

/// Stable identifier of a piece: the index of its slot in the arena and the
/// generation of that slot at the time the piece was created.
#[derive(Debug, PartialEq, Eq, Structural, Clone, Copy, Hash)]
pub struct Entity {
    pub index: u32,
    pub generation: u32,
}

impl Entity {
    /// The identifier as one number: the generation in the upper 32 bits,
    /// the index in the lower 32.
    pub open spec fn spec_to_bits(self) -> u64 {
        (self.generation as int * 0x1_0000_0000 + self.index as int) as u64
    }

    /// The identifier of slot `index` in its first generation.
    pub fn from_raw(index: u32) -> (e: Self)
        ensures
            e == (Entity { index, generation: 0 }),
    {
        Entity { index, generation: 0 }
    }

    pub fn index(self) -> (i: u32)
        ensures
            i == self.index,
    {
        self.index
    }

    pub fn generation(self) -> (g: u32)
        ensures
            g == self.generation,
    {
        self.generation
    }

    pub fn to_bits(self) -> (bits: u64)
        ensures
            bits == self.spec_to_bits(),
    {
        let g: u64 = self.generation as u64;
        let i: u64 = self.index as u64;
        g * 0x1_0000_0000 + i
    }

    /// Inverse of `to_bits`.
    pub fn from_bits(bits: u64) -> (e: Self)
        ensures
            e.spec_to_bits() == bits,
    {
        let g: u64 = bits / 0x1_0000_0000;
        let i: u64 = bits % 0x1_0000_0000;
        Entity { index: i as u32, generation: g as u32 }
    }
}

/// Two identifiers with the same bits are the same identifier.
pub proof fn lemma_to_bits_injective(a: Entity, b: Entity)
    requires
        a.spec_to_bits() == b.spec_to_bits(),
    ensures
        a == b,
{
}

/// A wizard or a creature with everything the rules know of it.
pub struct Piece {
    pub named: Named,
    pub moveable: MoveableComponent,
    pub belongs: Option<BelongsToPlayer>,
    pub attack: Option<CanAttack>,
    pub defend: Option<CanDefend>,
    pub ranged: Option<RangedCombat>,
    pub creature: Option<CreatureComponent>,
    pub animation: Option<RepeatAnimation>,
    pub sprite: usize,
    pub color: Color,
    pub has_moved: bool,
}

impl Piece {
    /// The same piece, free to move again.
    pub open spec fn rested(self) -> Piece {
        Piece { has_moved: false, ..self }
    }
}

pub struct Slot {
    generation: u32,
    piece: Option<Piece>,
}

/// The arena of pieces. A slot that a piece has left is used again, under
/// the next generation, so that an identifier never names two pieces.
pub struct World {
    slots: Vec<Slot>,
    free: Vec<u32>,
}

impl View for World {
    type V = Map<Entity, Piece>;

    /// The living pieces, by identifier.
    closed spec fn view(&self) -> Map<Entity, Piece> {
        Map::new(
            |e: Entity|
                (e.index as int) < self.slots.len() && self.slots[e.index as int].generation
                    == e.generation && self.slots[e.index as int].piece.is_some(),
            |e: Entity| self.slots[e.index as int].piece.unwrap(),
        )
    }
}

impl World {
    /// Every slot has an index that fits an identifier, and the free list
    /// names vacant slots, each once.
    pub closed spec fn wf(&self) -> bool {
        &&& self.slots.len() <= u32::MAX + 1
        &&& forall|k: int|
            0 <= k < self.free.len() ==> (#[trigger] self.free[k] as int) < self.slots.len()
                && self.slots[self.free[k] as int].piece.is_none()
        &&& forall|j: int, k: int|
            0 <= j < self.free.len() && 0 <= k < self.free.len() && j != k ==> self.free[j]
                != self.free[k]
    }

    /// How many more pieces can be given an identifier: one for every
    /// vacant slot on the free list, and one for every slot not made yet.
    pub closed spec fn room(&self) -> int {
        self.free.len() + (u32::MAX + 1 - self.slots.len())
    }

    /// Whether one more piece can be given an identifier.
    pub open spec fn spec_has_room(&self) -> bool {
        self.room() >= 1
    }

    /// An arena without pieces.
    pub fn new() -> (w: Self)
        ensures
            w.wf(),
            w.room() == u32::MAX + 1,
            w@ == Map::<Entity, Piece>::empty(),
    {
        let w = World { slots: Vec::new(), free: Vec::new() };
        assert(w@ =~= Map::<Entity, Piece>::empty());
        w
    }

    #[verifier::when_used_as_spec(spec_has_room)]
    pub fn has_room(&self) -> (r: bool)
        requires
            self.wf(),
        ensures
            r == self.spec_has_room(),
    {
        self.free.len() > 0 || self.slots.len() <= u32::MAX as usize
    }

    /// Whether `n` more pieces can be given identifiers.
    pub fn has_room_for(&self, n: usize) -> (r: bool)
        requires
            self.wf(),
        ensures
            r == (self.room() >= n),
    {
        let made: u128 = self.slots.len() as u128;
        let vacant: u128 = self.free.len() as u128;
        vacant + (0x1_0000_0000u128 - made) >= n as u128
    }

    /// Takes `piece` in and returns the identifier it lives under from now
    /// on, one that names no piece before the call.
    pub fn spawn(&mut self, piece: Piece) -> (e: Entity)
        requires
            old(self).wf(),
            old(self).has_room(),
        ensures
            final(self).wf(),
            final(self).room() == old(self).room() - 1,
            !old(self)@.contains_key(e),
            final(self)@ == old(self)@.insert(e, piece),
    {
        if self.free.len() > 0 {
            let i = self.free.pop().unwrap();
            let generation = self.slots[i as usize].generation;
            self.slots[i as usize].piece = Some(piece);
            let e = Entity { index: i, generation };
            assert(self@ =~= old(self)@.insert(e, piece));
            e
        } else {
            let i = self.slots.len() as u32;
            self.slots.push(Slot { generation: 0, piece: Some(piece) });
            let e = Entity { index: i, generation: 0 };
            assert(self@ =~= old(self)@.insert(e, piece));
            e
        }
    }

    /// Whether `e` names a living piece.
    pub fn contains(&self, e: Entity) -> (r: bool)
        ensures
            r == self@.contains_key(e),
    {
        let i = e.index as usize;
        i < self.slots.len() && self.slots[i].generation == e.generation
            && self.slots[i].piece.is_some()
    }

    /// The piece `e` names, if it lives.
    pub fn get(&self, e: Entity) -> (r: Option<&Piece>)
        ensures
            r == (if self@.contains_key(e) {
                Some(&self@[e])
            } else {
                None
            }),
    {
        let i = e.index as usize;
        if i < self.slots.len() && self.slots[i].generation == e.generation {
            self.slots[i].piece.as_ref()
        } else {
            None
        }
    }

    /// The piece `e` names, for writing. No other piece changes, and none
    /// comes or goes.
    pub fn get_mut(&mut self, e: Entity) -> (r: &mut Piece)
        requires
            old(self).wf(),
            old(self)@.contains_key(e),
        ensures
            *r == old(self)@[e],
            final(self).wf(),
            final(self).room() == old(self).room(),
            final(self)@ == old(self)@.insert(e, *final(r)),
    {
        match &mut self.slots[e.index as usize].piece {
            Some(p) => p,
            None => unreached(),
        }
    }

    /// Takes the piece `e` names out of the arena. The identifier names
    /// nothing from then on.
    pub fn despawn(&mut self, e: Entity)
        requires
            old(self).wf(),
        ensures
            final(self).wf(),
            final(self).room() >= old(self).room(),
            final(self)@ == old(self)@.remove(e),
    {
        if self.contains(e) {
            let i = e.index as usize;
            self.slots[i].piece = None;
            if self.slots[i].generation < u32::MAX {
                self.slots[i].generation = self.slots[i].generation + 1;
                self.free.push(e.index);
            }
        }
        assert(self@ =~= old(self)@.remove(e));
    }

    /// Takes every piece that `list` names out of the arena.
    pub fn despawn_all(&mut self, list: &Vec<Entity>)
        requires
            old(self).wf(),
        ensures
            final(self).wf(),
            final(self).room() >= old(self).room(),
            final(self)@ == old(self)@.remove_keys(list@.to_set()),
    {
        let mut i: usize = 0;
        while i < list.len()
            invariant
                i <= list.len(),
                self.wf(),
                self.room() >= old(self).room(),
                self@ == old(self)@.remove_keys(list@.subrange(0, i as int).to_set()),
            decreases list.len() - i,
        {
            let ghost done = list@.subrange(0, i as int);
            let ghost next = list@.subrange(0, i + 1);
            self.despawn(list[i]);
            proof {
                assert(next =~= done.push(list[i as int]));
                assert forall|x: Entity| next.to_set().contains(x) <==> done.to_set().contains(x)
                    || x == list[i as int] by {
                    if next.contains(x) {
                        let k = choose|k: int| 0 <= k < next.len() && next[k] == x;
                        if k < i {
                            assert(done[k] == x);
                        }
                    }
                    if done.contains(x) {
                        let k = choose|k: int| 0 <= k < done.len() && done[k] == x;
                        assert(next[k] == x);
                    }
                    assert(next[i as int] == list[i as int]);
                }
                assert(self@ =~= old(self)@.remove_keys(next.to_set()));
            }
            i += 1;
        }
        assert(list@.subrange(0, i as int) =~= list@);
    }

    /// Lets every piece move again.
    pub fn clear_moved(&mut self)
        requires
            old(self).wf(),
        ensures
            final(self).wf(),
            final(self).room() == old(self).room(),
            final(self)@ == old(self)@.map_values(|p: Piece| p.rested()),
    {
        let mut i: usize = 0;
        while i < self.slots.len()
            invariant
                i <= self.slots.len(),
                self.slots.len() == old(self).slots.len(),
                self.free == old(self).free,
                forall|k: int|
                    0 <= k < self.slots.len() ==> (#[trigger] self.slots[k]).generation == old(
                        self,
                    ).slots[k].generation,
                forall|k: int|
                    0 <= k < i ==> (#[trigger] self.slots[k]).piece == (match old(self).slots[k].piece {
                        Some(p) => Some(p.rested()),
                        None => None,
                    }),
                forall|k: int|
                    i <= k < self.slots.len() ==> (#[trigger] self.slots[k]).piece == old(
                        self,
                    ).slots[k].piece,
            decreases self.slots.len() - i,
        {
            match &mut self.slots[i].piece {
                Some(p) => {
                    p.has_moved = false;
                },
                None => {},
            }
            i += 1;
        }
        assert(self@ =~= old(self)@.map_values(|p: Piece| p.rested()));
    }
}

} // verus!
