//! The occupancy grid and the reverse index from a piece to its square.
//!
//! Every square holds a stack of pieces, of which only the top one can be
//! seen or selected. The reverse index answers where a piece stands without
//! searching the grid.

use vstd::prelude::*;
use crate::constants::{HEIGHT, WIDTH};
use crate::entity::{lemma_to_bits_injective, Entity};
use crate::vec::Vec2I;

verus! {

/// The reverse index: `bevy::utils::HashMap` from the bits of an identifier
/// to the square the piece stands on. Verus sees none of its inside; what it
/// holds is `index_entries`.
#[verifier::external_body]
pub struct PositionIndex {
    map: bevy::utils::HashMap<u64, Vec2I>,
}

/// The key-value pairs that a `PositionIndex` holds.
pub uninterp spec fn index_entries(ix: PositionIndex) -> Map<u64, Vec2I>;

/// `HashMap::new`: a map that holds nothing.
#[verifier::external_body]
fn index_new() -> (ix: PositionIndex)
    ensures
        index_entries(ix) =~= Map::empty(),
{
    PositionIndex { map: bevy::utils::HashMap::new() }
}

/// `HashMap::insert`: afterwards `key` maps to `pos`, whether or not it was
/// present before; no other key is touched.
#[verifier::external_body]
fn index_insert(ix: &mut PositionIndex, key: u64, pos: Vec2I)
    ensures
        index_entries(*final(ix)) == index_entries(*old(ix)).insert(key, pos),
{
    ix.map.insert(key, pos);
}

/// `HashMap::get`: the value stored under `key`, if there is one.
#[verifier::external_body]
fn index_get(ix: &PositionIndex, key: u64) -> (r: Option<Vec2I>)
    ensures
        r == (if index_entries(*ix).contains_key(key) {
            Some(index_entries(*ix)[key])
        } else {
            None
        }),
{
    ix.map.get(&key).copied()
}

/// `HashMap::contains_key`: whether a value is stored under `key`.
#[verifier::external_body]
fn index_contains_key(ix: &PositionIndex, key: u64) -> (r: bool)
    ensures
        r == index_entries(*ix).contains_key(key),
{
    ix.map.contains_key(&key)
}

/// `HashMap::remove`: afterwards nothing is stored under `key`; no other key
/// is touched.
#[verifier::external_body]
fn index_remove(ix: &mut PositionIndex, key: u64)
    ensures
        index_entries(*final(ix)) == index_entries(*old(ix)).remove(key),
{
    ix.map.remove(&key);
}

/// How far a piece may travel in one movement turn, and whether it flies
/// there in one jump or walks square by square.
#[derive(Debug, PartialEq, Eq, Structural, Clone, Copy)]
pub struct MoveableComponent {
    pub movement: u8,
    pub flying: bool,
}

/// A piece was placed on a square.
#[derive(Debug, PartialEq, Eq, Structural, Clone, Copy)]
pub struct BoardPutEntity {
    pub entity: Entity,
    pub pos: Vec2I,
}

/// A piece went from one square to another.
#[derive(Debug, PartialEq, Eq, Structural, Clone, Copy)]
pub struct BoardMove {
    pub entity: Entity,
    pub from: Vec2I,
    pub to: Vec2I,
}

/// A piece was killed and left the board.
#[derive(Debug, PartialEq, Eq, Structural, Clone, Copy)]
pub struct BoardKill {
    pub killer: Entity,
    pub killed: Entity,
}

/// Whether a square lies on the grid.
pub open spec fn on_board(pos: Vec2I) -> bool {
    0 <= pos.x < WIDTH && 0 <= pos.y < HEIGHT
}

/// The board as a mathematical object: the stack of every square (bottom
/// first, top last) and the square of every piece that stands on the board.
#[verifier::ext_equal]
pub struct BoardView {
    pub stacks: Map<Vec2I, Seq<Entity>>,
    pub positions: Map<Entity, Vec2I>,
}

impl BoardView {
    /// A board without pieces.
    pub open spec fn empty() -> BoardView {
        BoardView {
            stacks: Map::new(|p: Vec2I| on_board(p), |p: Vec2I| Seq::<Entity>::empty()),
            positions: Map::empty(),
        }
    }

    /// The stacks and the index say the same: a piece that has a square lies
    /// in that square's stack, every piece in a stack has that square, and no
    /// piece lies twice in a stack. So a piece is in exactly one stack, once.
    pub open spec fn wf(self) -> bool {
        &&& forall|p: Vec2I| self.stacks.contains_key(p) <==> on_board(p)
        &&& forall|e: Entity| #[trigger]
            self.positions.contains_key(e) ==> on_board(self.positions[e])
                && self.stacks[self.positions[e]].contains(e)
        &&& forall|p: Vec2I, i: int|
            on_board(p) && 0 <= i < self.stacks[p].len() ==> self.positions.contains_key(
                #[trigger] self.stacks[p][i],
            ) && self.positions[self.stacks[p][i]] == p
        &&& forall|p: Vec2I| on_board(p) ==> (#[trigger] self.stacks[p]).no_duplicates()
    }

    /// Whether a piece stands on the board.
    pub open spec fn has(self, e: Entity) -> bool {
        self.positions.contains_key(e)
    }

    /// The piece on top of a square, if the square holds any.
    pub open spec fn top(self, pos: Vec2I) -> Option<Entity> {
        if self.stacks[pos].len() == 0 {
            None
        } else {
            Some(self.stacks[pos].last())
        }
    }

    /// The board after `e` is laid on top of `pos`.
    pub open spec fn put(self, pos: Vec2I, e: Entity) -> BoardView {
        BoardView {
            stacks: self.stacks.insert(pos, self.stacks[pos].push(e)),
            positions: self.positions.insert(e, pos),
        }
    }

    /// The board after the top piece of `pos` is taken off.
    pub open spec fn pop(self, pos: Vec2I) -> BoardView {
        BoardView {
            stacks: self.stacks.insert(pos, self.stacks[pos].drop_last()),
            positions: self.positions.remove(self.stacks[pos].last()),
        }
    }

    /// The board without `e`, whether or not `e` stands on it.
    pub open spec fn without(self, e: Entity) -> BoardView {
        if self.has(e) {
            self.remove(e)
        } else {
            self
        }
    }

    /// The board without any of the pieces of `list`.
    pub open spec fn without_all(self, list: Seq<Entity>) -> BoardView
        decreases list.len(),
    {
        if list.len() == 0 {
            self
        } else {
            self.without(list[0]).without_all(list.drop_first())
        }
    }

    /// The board after `e` is taken out of its stack, wherever in it `e` lies.
    pub open spec fn remove(self, e: Entity) -> BoardView {
        let pos = self.positions[e];
        let stack = self.stacks[pos];
        BoardView {
            stacks: self.stacks.insert(pos, stack.remove(stack.index_of(e))),
            positions: self.positions.remove(e),
        }
    }
}

pub struct GameSquare {
    stack: Vec<Entity>,
}

pub struct GameColumn {
    cells: Vec<GameSquare>,
}

/// The board: `WIDTH` columns of `HEIGHT` squares each, and the reverse index.
pub struct GameBoard {
    columns: Vec<GameColumn>,
    index: PositionIndex,
}

impl GameSquare {
    fn new() -> (s: Self)
        ensures
            s.stack@ == Seq::<Entity>::empty(),
    {
        GameSquare { stack: Vec::new() }
    }
}

impl GameColumn {
    fn new() -> (c: Self)
        ensures
            c.cells.len() == HEIGHT,
            forall|y: int| 0 <= y < HEIGHT ==> (#[trigger] c.cells[y]).stack@ == Seq::<Entity>::empty(),
    {
        let mut cells: Vec<GameSquare> = Vec::new();
        let mut y: usize = 0;
        while y < HEIGHT
            invariant
                y <= HEIGHT,
                cells.len() == y,
                forall|j: int| 0 <= j < y ==> (#[trigger] cells[j]).stack@ == Seq::<Entity>::empty(),
            decreases HEIGHT - y,
        {
            cells.push(GameSquare::new());
            y += 1;
        }
        GameColumn { cells }
    }
}

impl View for GameBoard {
    type V = BoardView;

    closed spec fn view(&self) -> BoardView {
        BoardView {
            stacks: Map::new(
                |p: Vec2I| on_board(p),
                |p: Vec2I| self.columns[p.x as int].cells[p.y as int].stack@,
            ),
            positions: Map::new(
                |e: Entity| index_entries(self.index).contains_key(e.spec_to_bits()),
                |e: Entity| index_entries(self.index)[e.spec_to_bits()],
            ),
        }
    }
}

impl GameBoard {
    /// The grid has its `WIDTH` columns of `HEIGHT` squares.
    pub closed spec fn shaped(&self) -> bool {
        &&& self.columns.len() == WIDTH
        &&& forall|x: int| 0 <= x < WIDTH ==> (#[trigger] self.columns[x]).cells.len() == HEIGHT
    }

    /// The grid has its shape, and its stacks and its index agree.
    pub open spec fn wf(&self) -> bool {
        self.shaped() && self@.wf()
    }

    /// A board without pieces.
    pub fn new() -> (b: Self)
        ensures
            b.wf(),
            b@ == BoardView::empty(),
    {
        let mut columns: Vec<GameColumn> = Vec::new();
        let mut x: usize = 0;
        while x < WIDTH
            invariant
                x <= WIDTH,
                columns.len() == x,
                forall|i: int| 0 <= i < x ==> (#[trigger] columns[i]).cells.len() == HEIGHT,
                forall|i: int, j: int|
                    0 <= i < x && 0 <= j < HEIGHT ==> (#[trigger] columns[i].cells[j]).stack@
                        == Seq::<Entity>::empty(),
            decreases WIDTH - x,
        {
            columns.push(GameColumn::new());
            x += 1;
        }
        let b = GameBoard { columns, index: index_new() };
        assert(b@.stacks =~= BoardView::empty().stacks);
        assert(b@.positions =~= BoardView::empty().positions);
        b
    }

    /// Lays `e` on top of the stack of `pos` and records `pos` as its square.
    pub fn put_entity(&mut self, pos: Vec2I, e: Entity)
        requires
            old(self).wf(),
            on_board(pos),
            !old(self)@.has(e),
        ensures
            final(self).wf(),
            final(self)@ == old(self)@.put(pos, e),
    {
        self.columns[pos.x as usize].cells[pos.y as usize].stack.push(e);
        index_insert(&mut self.index, e.to_bits(), pos);
        proof {
            lemma_put_wf(old(self)@, pos, e);
            assert(self@.stacks =~= old(self)@.put(pos, e).stacks);
            assert forall|o: Entity| self@.positions.contains_key(o) <==> old(self)@.put(
                pos,
                e,
            ).positions.contains_key(o) by {
                if o.spec_to_bits() == e.spec_to_bits() {
                    lemma_to_bits_injective(o, e);
                }
            }
            assert(self@.positions =~= old(self)@.put(pos, e).positions) by {
                assert forall|o: Entity| self@.positions.contains_key(o) implies self@.positions[o]
                    == old(self)@.put(pos, e).positions[o] by {
                    if o.spec_to_bits() == e.spec_to_bits() {
                        lemma_to_bits_injective(o, e);
                    }
                }
            }
        }
    }

    /// Whether the square holds a piece.
    pub fn has_entity_at(&self, pos: Vec2I) -> (r: bool)
        requires
            self.wf(),
            on_board(pos),
        ensures
            r == (self@.stacks[pos].len() > 0),
            r == self@.top(pos).is_some(),
    {
        self.get_entity(pos).is_some()
    }

    /// Whether the piece stands on the board.
    pub fn _has_entity(&self, e: Entity) -> (r: bool)
        ensures
            r == self@.has(e),
    {
        index_contains_key(&self.index, e.to_bits())
    }

    /// The piece on top of the square, or `None` where the square is empty.
    pub fn get_entity(&self, pos: Vec2I) -> (r: Option<Entity>)
        requires
            self.wf(),
            on_board(pos),
        ensures
            r == self@.top(pos),
    {
        let stack = &self.columns[pos.x as usize].cells[pos.y as usize].stack;
        if stack.len() == 0 {
            return None;
        }
        Some(stack[stack.len() - 1])
    }

    /// The square the piece stands on.
    pub fn get_entity_pos(&self, e: Entity) -> (pos: Vec2I)
        requires
            self.wf(),
            self@.has(e),
        ensures
            pos == self@.positions[e],
            on_board(pos),
    {
        index_get(&self.index, e.to_bits()).unwrap()
    }

    /// Takes the top piece off the square and forgets where it stood.
    pub fn pop_entity(&mut self, pos: Vec2I) -> (e: Entity)
        requires
            old(self).wf(),
            on_board(pos),
            old(self)@.top(pos).is_some(),
        ensures
            final(self).wf(),
            Some(e) == old(self)@.top(pos),
            final(self)@ == old(self)@.pop(pos),
    {
        let e = self.columns[pos.x as usize].cells[pos.y as usize].stack.pop().unwrap();
        index_remove(&mut self.index, e.to_bits());
        proof {
            lemma_pop_wf(old(self)@, pos);
            assert(self@.stacks =~= old(self)@.pop(pos).stacks);
            assert forall|o: Entity| self@.positions.contains_key(o) <==> old(self)@.pop(
                pos,
            ).positions.contains_key(o) by {
                if o.spec_to_bits() == e.spec_to_bits() {
                    lemma_to_bits_injective(o, e);
                }
            }
            assert(self@.positions =~= old(self)@.pop(pos).positions);
        }
        e
    }
}

impl GameBoard {
    /// Takes `e` off the board, wherever in its stack it lies, and forgets
    /// where it stood.
    pub fn remove(&mut self, e: Entity)
        requires
            old(self).wf(),
            old(self)@.has(e),
        ensures
            final(self).wf(),
            final(self)@ == old(self)@.remove(e),
            !final(self)@.has(e),
    {
        let pos = self.get_entity_pos(e);
        let ghost stack = self@.stacks[pos];
        assert(stack.contains(e));
        let mut i: usize = 0;
        while self.columns[pos.x as usize].cells[pos.y as usize].stack[i] != e
            invariant
                self.wf(),
                *self == *old(self),
                on_board(pos),
                stack == self@.stacks[pos],
                stack == self.columns[pos.x as int].cells[pos.y as int].stack@,
                exists|w: int| i <= w < stack.len() && stack[w] == e,
            decreases stack.len() - i,
        {
            proof {
                let w = choose|w: int| i <= w < stack.len() && stack[w] == e;
                assert(i + 1 <= w);
                assert(stack.len() == self.columns[pos.x as int].cells[pos.y as int].stack.len());
            }
            i += 1;
        }
        proof {
            assert(stack[i as int] == e);
            assert(stack.index_of(e) == i);
        }
        self.columns[pos.x as usize].cells[pos.y as usize].stack.remove(i);
        index_remove(&mut self.index, e.to_bits());
        proof {
            lemma_remove_wf(old(self)@, e);
            assert(self@.stacks =~= old(self)@.remove(e).stacks);
            assert forall|o: Entity| self@.positions.contains_key(o) <==> old(self)@.remove(
                e,
            ).positions.contains_key(o) by {
                if o.spec_to_bits() == e.spec_to_bits() {
                    lemma_to_bits_injective(o, e);
                }
            }
            assert(self@.positions =~= old(self)@.remove(e).positions);
        }
    }

    /// Moves the top piece of the square `e` stands on to the top of `to`:
    /// one pop, then one put. Returns the piece that moved, which is `e`
    /// whenever `e` is on top of its stack.
    pub fn move_entity(&mut self, e: Entity, to: Vec2I) -> (moved: Entity)
        requires
            old(self).wf(),
            old(self)@.has(e),
            on_board(to),
        ensures
            final(self).wf(),
            Some(moved) == old(self)@.top(old(self)@.positions[e]),
            final(self)@ == old(self)@.pop(old(self)@.positions[e]).put(to, moved),
            final(self)@.positions[moved] == to,
            forall|x: Entity|
                #![trigger final(self)@.has(x)]
                #![trigger old(self)@.has(x)]
                final(self)@.has(x) <==> old(self)@.has(x),
    {
        let current_pos = self.get_entity_pos(e);
        proof {
            lemma_pop_wf(self@, current_pos);
            let stack = self@.stacks[current_pos];
            assert(stack.contains(e));
            assert(self@.has(stack[stack.len() - 1]));
        }
        let entity = self.pop_entity(current_pos);
        self.put_entity(to, entity);
        entity
    }
}

impl GameBoard {
    /// Takes every piece of `list` that stands on the board off it.
    pub fn remove_all(&mut self, list: &Vec<Entity>)
        requires
            old(self).wf(),
        ensures
            final(self).wf(),
            final(self)@ == old(self)@.without_all(list@),
            forall|e: Entity|
                #![trigger final(self)@.has(e)]
                #![trigger old(self)@.has(e)]
                final(self)@.has(e) <==> old(self)@.has(e) && !list@.contains(e),
    {
        let mut i: usize = 0;
        assert(list@.subrange(0, list.len() as int) =~= list@);
        while i < list.len()
            invariant
                i <= list.len(),
                self.wf(),
                self@.without_all(list@.subrange(i as int, list.len() as int)) == old(
                    self,
                )@.without_all(list@),
                forall|e: Entity|
                    self@.has(e) <==> old(self)@.has(e) && !list@.subrange(0, i as int).contains(e),
            decreases list.len() - i,
        {
            let ghost rest = list@.subrange(i as int, list.len() as int);
            let ghost before = self@;
            assert(rest.drop_first() =~= list@.subrange(i + 1, list.len() as int));
            assert(rest[0] == list[i as int]);
            let e = list[i];
            if self._has_entity(e) {
                self.remove(e);
            }
            assert(self@ == before.without(e));
            proof {
                lemma_remove_wf_has(before, e);
                let done = list@.subrange(0, i as int);
                let next = list@.subrange(0, i + 1);
                assert(next =~= done.push(e));
                assert forall|x: Entity| next.contains(x) <==> done.contains(x) || x == e by {
                    if next.contains(x) {
                        let k = choose|k: int| 0 <= k < next.len() && next[k] == x;
                        if k < i {
                            assert(done[k] == x);
                        }
                    }
                    if done.contains(x) {
                        let k = choose|k: int| 0 <= k < done.len() && done[k] == x;
                        assert(next[k] == x);
                    }
                    assert(next[i as int] == e);
                }
                assert forall|x: Entity|
                    self@.has(x) <==> old(self)@.has(x) && !next.contains(x) by {
                    assert(before.has(x) <==> old(self)@.has(x) && !done.contains(x));
                    assert(self@.has(x) <==> before.has(x) && x != e);
                    assert(next.contains(x) <==> done.contains(x) || x == e);
                }
            }
            i += 1;
        }
        assert(list@.subrange(0, i as int) =~= list@);
    }
}

/// Taking a piece off the board, if it stands there, takes that piece off
/// and no other.
pub proof fn lemma_remove_wf_has(b: BoardView, e: Entity)
    requires
        b.wf(),
    ensures
        b.without(e).wf(),
        forall|x: Entity|
            #![trigger b.without(e).has(x)]
            #![trigger b.has(x)]
            b.without(e).has(x) <==> b.has(x) && x != e,
{
    if b.has(e) {
        lemma_remove_wf(b, e);
    }
}

/// A piece laid on a square and taken off again leaves the board as it was:
/// the piece taken off is the piece laid on, and it stands nowhere.
pub proof fn lemma_put_then_pop(b: BoardView, pos: Vec2I, e: Entity)
    requires
        b.wf(),
        on_board(pos),
        !b.has(e),
    ensures
        b.put(pos, e).top(pos) == Some(e),
        b.put(pos, e).pop(pos) == b,
        !b.put(pos, e).pop(pos).has(e),
        b.put(pos, e).pop(pos).top(pos) == b.top(pos),
{
    let a = b.put(pos, e);
    assert(a.stacks[pos].last() == e);
    assert(a.stacks[pos].drop_last() =~= b.stacks[pos]);
    assert(a.pop(pos).stacks =~= b.stacks);
    assert(a.pop(pos).positions =~= b.positions);
}

/// Of two pieces laid on one square, the one laid on last comes off first.
pub proof fn lemma_stack_is_lifo(b: BoardView, pos: Vec2I, first: Entity, second: Entity)
    requires
        b.wf(),
        on_board(pos),
        !b.has(first),
        !b.has(second),
        first != second,
    ensures
        b.put(pos, first).put(pos, second).top(pos) == Some(second),
        b.put(pos, first).put(pos, second).pop(pos) == b.put(pos, first),
        b.put(pos, first).put(pos, second).pop(pos).top(pos) == Some(first),
{
    lemma_put_wf(b, pos, first);
    lemma_put_then_pop(b.put(pos, first), pos, second);
    assert(b.put(pos, first).stacks[pos].last() == first);
}

/// Taking a piece out of its stack keeps the stacks and the index in
/// agreement.
pub proof fn lemma_remove_wf(b: BoardView, e: Entity)
    requires
        b.wf(),
        b.has(e),
    ensures
        b.remove(e).wf(),
        !b.remove(e).has(e),
{
    let a = b.remove(e);
    let pos = b.positions[e];
    let stack = b.stacks[pos];
    let n = stack.index_of(e);
    assert(stack.contains(e));
    assert(0 <= n < stack.len() && stack[n] == e);
    assert forall|o: Entity| #[trigger] a.positions.contains_key(o) implies on_board(a.positions[o])
        && a.stacks[a.positions[o]].contains(o) by {
        let q = b.positions[o];
        let k = choose|k: int| 0 <= k < b.stacks[q].len() && b.stacks[q][k] == o;
        if q == pos {
            assert(k != n);
            if k < n {
                assert(a.stacks[q][k] == o);
            } else {
                assert(a.stacks[q][k - 1] == o);
            }
        } else {
            assert(a.stacks[q][k] == o);
        }
    }
    assert forall|p: Vec2I, i: int| on_board(p) && 0 <= i < a.stacks[p].len() implies a.positions.contains_key(
        #[trigger] a.stacks[p][i],
    ) && a.positions[a.stacks[p][i]] == p by {
        if p == pos {
            let k = if i < n { i } else { i + 1 };
            assert(a.stacks[p][i] == b.stacks[p][k]);
            assert(b.stacks[p][k] != b.stacks[p][n]);
        } else {
            assert(a.stacks[p][i] == b.stacks[p][i]);
        }
    }
    assert forall|p: Vec2I| on_board(p) implies (#[trigger] a.stacks[p]).no_duplicates() by {
        assert(b.stacks[p].no_duplicates());
        if p == pos {
            assert forall|i: int, j: int|
                0 <= i < a.stacks[p].len() && 0 <= j < a.stacks[p].len() && i != j implies a.stacks[p][i]
                != a.stacks[p][j] by {
                let ki = if i < n { i } else { i + 1 };
                let kj = if j < n { j } else { j + 1 };
                assert(a.stacks[p][i] == b.stacks[p][ki]);
                assert(a.stacks[p][j] == b.stacks[p][kj]);
            }
        }
    }
}

/// Laying a piece that is not on the board onto a square keeps the stacks
/// and the index in agreement.
pub proof fn lemma_put_wf(b: BoardView, pos: Vec2I, e: Entity)
    requires
        b.wf(),
        on_board(pos),
        !b.has(e),
    ensures
        b.put(pos, e).wf(),
{
    let a = b.put(pos, e);
    assert forall|o: Entity| #[trigger] a.positions.contains_key(o) implies on_board(a.positions[o])
        && a.stacks[a.positions[o]].contains(o) by {
        if o == e {
            assert(a.stacks[pos].last() == e);
        } else {
            let q = b.positions[o];
            let k = choose|k: int| 0 <= k < b.stacks[q].len() && b.stacks[q][k] == o;
            assert(a.stacks[q][k] == o);
        }
    }
    assert forall|p: Vec2I, i: int| on_board(p) && 0 <= i < a.stacks[p].len() implies a.positions.contains_key(
        #[trigger] a.stacks[p][i],
    ) && a.positions[a.stacks[p][i]] == p by {
        if p == pos && i == b.stacks[pos].len() {
        } else {
            assert(a.stacks[p][i] == b.stacks[p][i]);
        }
    }
    assert forall|p: Vec2I| on_board(p) implies (#[trigger] a.stacks[p]).no_duplicates() by {
        if p == pos {
            assert forall|i: int, j: int|
                0 <= i < a.stacks[p].len() && 0 <= j < a.stacks[p].len() && i != j implies a.stacks[p][i]
                != a.stacks[p][j] by {
                if i < b.stacks[p].len() {
                    assert(b.positions.contains_key(b.stacks[p][i]));
                }
                if j < b.stacks[p].len() {
                    assert(b.positions.contains_key(b.stacks[p][j]));
                }
            }
        }
    }
}

/// Taking the top piece off a square keeps the stacks and the index in
/// agreement.
pub proof fn lemma_pop_wf(b: BoardView, pos: Vec2I)
    requires
        b.wf(),
        on_board(pos),
        b.top(pos).is_some(),
    ensures
        b.pop(pos).wf(),
        !b.pop(pos).has(b.stacks[pos].last()),
{
    let a = b.pop(pos);
    let e = b.stacks[pos].last();
    let n = b.stacks[pos].len() - 1;
    assert(b.stacks[pos][n] == e);
    assert forall|o: Entity| #[trigger] a.positions.contains_key(o) implies on_board(a.positions[o])
        && a.stacks[a.positions[o]].contains(o) by {
        let q = b.positions[o];
        let k = choose|k: int| 0 <= k < b.stacks[q].len() && b.stacks[q][k] == o;
        if q == pos {
            assert(k != n);
            assert(a.stacks[q][k] == o);
        } else {
            assert(a.stacks[q][k] == o);
        }
    }
    assert forall|p: Vec2I, i: int| on_board(p) && 0 <= i < a.stacks[p].len() implies a.positions.contains_key(
        #[trigger] a.stacks[p][i],
    ) && a.positions[a.stacks[p][i]] == p by {
        assert(a.stacks[p][i] == b.stacks[p][i]);
        if p == pos {
            assert(b.stacks[p][i] != b.stacks[p][n]);
        } else {
            assert(b.positions[b.stacks[p][i]] == p);
        }
    }
    assert forall|p: Vec2I| on_board(p) implies (#[trigger] a.stacks[p]).no_duplicates() by {
        assert(b.stacks[p].no_duplicates());
        if p == pos {
            assert forall|i: int, j: int|
                0 <= i < a.stacks[p].len() && 0 <= j < a.stacks[p].len() && i != j implies a.stacks[p][i]
                != a.stacks[p][j] by {
                assert(a.stacks[p][i] == b.stacks[p][i]);
                assert(a.stacks[p][j] == b.stacks[p][j]);
            }
        }
    }
}

} // verus!
