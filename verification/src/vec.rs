//! Integer grid coordinates and the tactical distance between two squares.

use vstd::prelude::*;

verus! {

/// A square of the grid, or a displacement between two squares.
#[derive(Debug, Eq, Hash, PartialEq, Structural, Clone, Copy)]
pub struct Vec2I {
    pub x: i8,
    pub y: i8,
}

/// Absolute value of a mathematical integer.
pub open spec fn abs_int(v: int) -> int {
    if v < 0 {
        -v
    } else {
        v
    }
}

/// The smaller of two mathematical integers.
pub open spec fn min_int(a: int, b: int) -> int {
    if a < b {
        a
    } else {
        b
    }
}

/// Cost of `i` consecutive diagonal steps: every second diagonal step counts
/// double, so the running totals are 1, 3, 4, 6, 7, 9, ...
pub open spec fn diagonal_cost(i: int) -> int {
    i + i / 2
}

/// Tactical distance between two squares given by their coordinates: the
/// shared diagonal part is charged by `diagonal_cost`, the rest one per step.
pub open spec fn grid_distance(ax: int, ay: int, bx: int, by: int) -> int {
    let dx = abs_int(ax - bx);
    let dy = abs_int(ay - by);
    let m = min_int(dx, dy);
    diagonal_cost(m) + (dx - m) + (dy - m)
}

impl core::ops::Add for Vec2I {
    type Output = Self;

    fn add(self, rhs: Self) -> (r: Self) {
        Self { x: self.x + rhs.x, y: self.y + rhs.y }
    }
}

impl vstd::std_specs::ops::AddSpecImpl for Vec2I {
    open spec fn obeys_add_spec() -> bool {
        true
    }

    /// Each component of the sum has to fit in `i8`.
    open spec fn add_req(self, rhs: Self) -> bool {
        &&& i8::MIN <= self.x + rhs.x <= i8::MAX
        &&& i8::MIN <= self.y + rhs.y <= i8::MAX
    }

    open spec fn add_spec(self, rhs: Self) -> Self {
        Vec2I { x: (self.x + rhs.x) as i8, y: (self.y + rhs.y) as i8 }
    }
}

impl core::ops::Sub for Vec2I {
    type Output = Self;

    fn sub(self, rhs: Self) -> (r: Self) {
        Self { x: self.x - rhs.x, y: self.y - rhs.y }
    }
}

impl vstd::std_specs::ops::SubSpecImpl for Vec2I {
    open spec fn obeys_sub_spec() -> bool {
        true
    }

    /// Each component of the difference has to fit in `i8`.
    open spec fn sub_req(self, rhs: Self) -> bool {
        &&& i8::MIN <= self.x - rhs.x <= i8::MAX
        &&& i8::MIN <= self.y - rhs.y <= i8::MAX
    }

    open spec fn sub_spec(self, rhs: Self) -> Self {
        Vec2I { x: (self.x - rhs.x) as i8, y: (self.y - rhs.y) as i8 }
    }
}

impl Default for Vec2I {
    fn default() -> (r: Self)
        ensures
            r == (Vec2I { x: 0, y: 0 }),
    {
        Self { x: 0, y: 0 }
    }
}

impl Vec2I {
    /// Tactical distance from `self` to `w`, as a mathematical integer.
    pub open spec fn spec_distance(self, w: Vec2I) -> int {
        grid_distance(self.x as int, self.y as int, w.x as int, w.y as int)
    }

    pub fn new(x: i8, y: i8) -> (r: Self)
        ensures
            r.x == x,
            r.y == y,
    {
        Self { x, y }
    }

    pub fn zero() -> (r: Self)
        ensures
            r == (Vec2I { x: 0, y: 0 }),
    {
        Self { x: 0, y: 0 }
    }

    pub fn one() -> (r: Self)
        ensures
            r == (Vec2I { x: 1, y: 1 }),
    {
        Self { x: 1, y: 1 }
    }

    pub fn unit_x() -> (r: Self)
        ensures
            r == (Vec2I { x: 1, y: 0 }),
    {
        Self { x: 1, y: 0 }
    }

    pub fn unit_y() -> (r: Self)
        ensures
            r == (Vec2I { x: 0, y: 1 }),
    {
        Self { x: 0, y: 1 }
    }

    pub fn splat(v: i8) -> (r: Self)
        ensures
            r == (Vec2I { x: v, y: v }),
    {
        Self { x: v, y: v }
    }

    pub fn x(self) -> (r: i8)
        ensures
            r == self.x,
    {
        self.x
    }

    pub fn y(self) -> (r: i8)
        ensures
            r == self.y,
    {
        self.y
    }

    /// Hands out the `x` coordinate for writing; `y` stays as it was.
    pub fn mut_x(&mut self) -> (r: &mut i8)
        ensures
            *r == old(self).x,
            *final(self) == (Vec2I { x: *final(r), y: old(self).y }),
    {
        &mut self.x
    }

    /// Hands out the `y` coordinate for writing; `x` stays as it was.
    pub fn mut_y(&mut self) -> (r: &mut i8)
        ensures
            *r == old(self).y,
            *final(self) == (Vec2I { x: old(self).x, y: *final(r) }),
    {
        &mut self.y
    }

    /// Component-wise absolute value. `i8::MIN` has none in `i8`.
    pub fn abs(self) -> (r: Self)
        requires
            self.x != i8::MIN,
            self.y != i8::MIN,
        ensures
            r.x == abs_int(self.x as int),
            r.y == abs_int(self.y as int),
    {
        let x: i8 = if self.x < 0 { -self.x } else { self.x };
        let y: i8 = if self.y < 0 { -self.y } else { self.y };
        Self { x, y }
    }

    /// The smaller of the two absolute components: the side of the largest
    /// square that fits in the displacement.
    pub fn smallest_square(self) -> (r: i8)
        requires
            self.x != i8::MIN,
            self.y != i8::MIN,
        ensures
            r == min_int(abs_int(self.x as int), abs_int(self.y as int)),
    {
        let w = self.abs();
        if w.x < w.y {
            return w.x;
        }
        w.y
    }

    /// Tactical distance from `self` to `w`.
    pub fn distance(self, w: Self) -> (r: u8)
        requires
            self.spec_distance(w) <= u8::MAX,
        ensures
            r == self.spec_distance(w),
    {
        let dx: i16 = self.x as i16 - w.x as i16;
        let dy: i16 = self.y as i16 - w.y as i16;
        let ax: i16 = if dx < 0 { -dx } else { dx };
        let ay: i16 = if dy < 0 { -dy } else { dy };
        let ss: i16 = if ax < ay { ax } else { ay };
        let d: i16 = wide_square_distance(ss) + (ax - ss) + (ay - ss);
        d as u8
    }
}

fn wide_square_distance(i: i16) -> (r: i16)
    requires
        0 <= i <= 255,
    ensures
        r == diagonal_cost(i as int),
{
    i + i / 2
}

/// Cost of `i` consecutive diagonal steps: 1, 3, 4, 6, 7, ... for 1, 2, 3,
/// 4, 5, ...; for a negative `i`, `i` and the half of `i` rounded down.
pub fn square_distance(i: i8) -> (r: i8)
    requires
        i8::MIN <= diagonal_cost(i as int) <= i8::MAX,
    ensures
        r == diagonal_cost(i as int),
{
    if i == 0 {
        return 0;
    }
    if i < 0 {
        return i + (i - 1) / 2;
    }
    i + i / 2
}

/// The distance from a square to itself is zero.
pub proof fn lemma_distance_to_self(p: Vec2I)
    ensures
        p.spec_distance(p) == 0,
{
}

/// The distance from `a` to `b` is the distance from `b` to `a`.
pub proof fn lemma_distance_symmetric(a: Vec2I, b: Vec2I)
    ensures
        a.spec_distance(b) == b.spec_distance(a),
{
}

/// The distance is never negative, and zero only between a square and itself.
pub proof fn lemma_distance_positive(a: Vec2I, b: Vec2I)
    ensures
        a.spec_distance(b) >= 0,
        a.spec_distance(b) == 0 <==> a == b,
{
}

/// A step to one of the eight squares around a square has distance one.
pub proof fn lemma_step_costs_one(a: Vec2I, b: Vec2I)
    requires
        a != b,
        abs_int(a.x - b.x) <= 1,
        abs_int(a.y - b.y) <= 1,
    ensures
        a.spec_distance(b) == 1,
{
}

} // verus!
