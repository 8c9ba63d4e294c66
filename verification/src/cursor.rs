//! The cursor with which squares are pointed at.

use vstd::prelude::*;
use crate::board::on_board;
use crate::constants::{HEIGHT, WIDTH};
use crate::entity::Entity;
use crate::vec::Vec2I;

verus! {

pub const CURSOR_SPELL: usize = 0;

pub const CURSOR_BOX: usize = 1;

pub const CURSOR_FLY: usize = 2;

pub const CURSOR_TARGET: usize = 3;

/// The last column the cursor goes to.
pub const CURSOR_MAX_X: i8 = 14;

/// The last row the cursor goes to.
pub const CURSOR_MAX_Y: i8 = 9;

/// The cursor went from the second square to the first.
#[derive(Debug, PartialEq, Eq, Structural, Clone, Copy)]
pub struct CursorMovedEvent(pub Vec2I, pub Vec2I);

/// The cursor is to go to the square the piece stands on.
#[derive(Debug, PartialEq, Eq, Structural, Clone, Copy)]
pub struct PositionCursorOnEntity(pub Entity);

/// The eight ways the cursor can go.
#[derive(Debug, PartialEq, Eq, Structural, Clone, Copy)]
pub enum Direction {
    Left,
    Right,
    Up,
    UpLeft,
    UpRight,
    Down,
    DownLeft,
    DownRight,
}

impl Direction {
    /// Change of the column: -1 to the left, 1 to the right.
    pub open spec fn dx(self) -> int {
        match self {
            Direction::Left | Direction::UpLeft | Direction::DownLeft => -1,
            Direction::Right | Direction::UpRight | Direction::DownRight => 1,
            Direction::Up | Direction::Down => 0,
        }
    }

    /// Change of the row: 1 upwards, -1 downwards.
    pub open spec fn dy(self) -> int {
        match self {
            Direction::Up | Direction::UpLeft | Direction::UpRight => 1,
            Direction::Down | Direction::DownLeft | Direction::DownRight => -1,
            Direction::Left | Direction::Right => 0,
        }
    }
}

/// One coordinate after a step of `d` that stays within `0..=max`: a step
/// that would leave that range is not taken.
pub open spec fn stepped(v: i8, d: int, max: i8) -> i8 {
    if d < 0 && v > 0 {
        (v - 1) as i8
    } else if d > 0 && v < max {
        (v + 1) as i8
    } else {
        v
    }
}

/// The cursor: its shape, whether it shows, and the square it points at.
#[derive(Debug, PartialEq, Eq, Structural, Clone, Copy)]
pub struct Cursor {
    pub cursor: usize,
    pub visible: bool,
    pub x: i8,
    pub y: i8,
    pub moved: bool,
    pub redraw: bool,
    pub hide_till_moved: bool,
}

impl Default for Cursor {
    fn default() -> (c: Self)
        ensures
            c == Cursor::spec_new(),
    {
        Cursor {
            cursor: CURSOR_BOX,
            visible: false,
            x: 0,
            y: 0,
            moved: false,
            redraw: true,
            hide_till_moved: false,
        }
    }
}

impl Cursor {
    /// The cursor at the start: a box in the corner that does not show.
    pub open spec fn spec_new() -> Cursor {
        Cursor {
            cursor: CURSOR_BOX,
            visible: false,
            x: 0,
            y: 0,
            moved: false,
            redraw: true,
            hide_till_moved: false,
        }
    }

    /// The square the cursor points at.
    pub open spec fn pos(&self) -> Vec2I {
        Vec2I { x: self.x, y: self.y }
    }

    /// The cursor points at a square of the grid.
    pub open spec fn wf(&self) -> bool {
        on_board(self.pos())
    }

    /// The cursor after a step in direction `d`.
    pub open spec fn after_step(&self, d: Direction) -> Cursor {
        let x = stepped(self.x, d.dx(), CURSOR_MAX_X);
        let y = stepped(self.y, d.dy(), CURSOR_MAX_Y);
        if x != self.x || y != self.y {
            Cursor { x, y, moved: true, hide_till_moved: false, ..*self }
        } else if self.moved {
            Cursor { hide_till_moved: false, ..*self }
        } else {
            *self
        }
    }

    pub fn is_visible(&self) -> (r: bool)
        ensures
            r == self.visible,
    {
        self.visible
    }

    pub fn set_visible(&mut self)
        ensures
            *final(self) == (Cursor { visible: true, redraw: true, ..*old(self) }),
    {
        self.visible = true;
        self.redraw = true;
    }

    pub fn set_invisible(&mut self)
        ensures
            *final(self) == (Cursor { visible: false, redraw: true, ..*old(self) }),
    {
        self.visible = false;
        self.redraw = true;
    }

    pub fn set_type(&mut self, t: usize)
        ensures
            *final(self) == (Cursor { cursor: t, redraw: true, ..*old(self) }),
    {
        self.cursor = t;
        self.redraw = true;
    }

    pub fn set_pos(&mut self, v: Vec2I)
        ensures
            *final(self) == (Cursor { x: v.x, y: v.y, redraw: true, ..*old(self) }),
    {
        self.x = v.x;
        self.y = v.y;
        self.redraw = true;
    }

    pub fn get_pos_v(&self) -> (v: Vec2I)
        ensures
            v == self.pos(),
    {
        Vec2I { x: self.x, y: self.y }
    }

    /// Keeps the cursor from showing until it is moved the next time.
    pub fn hide_till_moved(&mut self)
        ensures
            *final(self) == (Cursor { hide_till_moved: true, ..*old(self) }),
    {
        self.hide_till_moved = true;
    }

    /// Takes one step in direction `d`, as far as the playing field goes:
    /// a step to the side or up or down that would leave it is not taken,
    /// and of a diagonal step the part that stays within it is taken.
    /// Reports the new and the old square whenever the cursor has moved
    /// since it was last drawn.
    pub fn keyboard_input(&mut self, d: Direction) -> (r: Option<CursorMovedEvent>)
        requires
            old(self).wf(),
        ensures
            final(self).wf(),
            *final(self) == old(self).after_step(d),
            r == (if final(self).moved {
                Some(CursorMovedEvent(final(self).pos(), old(self).pos()))
            } else {
                None
            }),
    {
        let previous_pos = Vec2I { x: self.x, y: self.y };
        let left = match d {
            Direction::Left | Direction::UpLeft | Direction::DownLeft => true,
            _ => false,
        };
        let right = match d {
            Direction::Right | Direction::UpRight | Direction::DownRight => true,
            _ => false,
        };
        let up = match d {
            Direction::Up | Direction::UpLeft | Direction::UpRight => true,
            _ => false,
        };
        let down = match d {
            Direction::Down | Direction::DownLeft | Direction::DownRight => true,
            _ => false,
        };
        if up && self.y < CURSOR_MAX_Y {
            self.y += 1;
            self.moved = true;
        }
        if down && self.y > 0 {
            self.y -= 1;
            self.moved = true;
        }
        if left && self.x > 0 {
            self.x -= 1;
            self.moved = true;
        }
        if right && self.x < CURSOR_MAX_X {
            self.x += 1;
            self.moved = true;
        }
        if self.moved {
            self.hide_till_moved = false;
            return Some(CursorMovedEvent(Vec2I { x: self.x, y: self.y }, previous_pos));
        }
        None
    }

    /// What the cursor shows next. A cursor that was moved or changed is
    /// drawn anew: hidden where it is held back or does not show at all,
    /// shown otherwise. After that, a cursor that shows and is not held back
    /// blinks with every full beat of the clock. Returns whether the cursor
    /// was drawn anew and whether it is lit.
    pub fn animate_cursor(&mut self, lit: bool, beat: bool) -> (r: (bool, bool))
        ensures
            r.0 == (old(self).moved || old(self).redraw || old(self).hide_till_moved),
            *final(self) == (if r.0 {
                Cursor { moved: false, redraw: false, ..*old(self) }
            } else {
                *old(self)
            }),
            r.1 == ({
                let drawn = if r.0 {
                    !old(self).hide_till_moved && old(self).visible
                } else {
                    lit
                };
                if old(self).visible && !old(self).hide_till_moved && beat {
                    !drawn
                } else {
                    drawn
                }
            }),
    {
        let mut now_lit = lit;
        let mut drawn = false;
        if self.moved || self.redraw || self.hide_till_moved {
            drawn = true;
            if self.hide_till_moved {
                now_lit = false;
            } else if self.is_visible() {
                now_lit = true;
            } else {
                now_lit = false;
            }
            self.moved = false;
            self.redraw = false;
        }
        if !self.is_visible() || self.hide_till_moved {
            return (drawn, now_lit);
        }
        if beat {
            now_lit = !now_lit;
        }
        (drawn, now_lit)
    }
}

} // verus!
