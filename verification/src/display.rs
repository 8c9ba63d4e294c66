//! What the rules hand to the screen: palette colours, digits and glyphs.

use vstd::prelude::*;
use crate::vec::Vec2I;

verus! {

/// The colours pieces and texts are drawn in: the fixed palette, and any
/// other colour by its red, green and blue parts of 255.
#[derive(Debug, PartialEq, Eq, Structural, Clone, Copy)]
pub enum Color {
    White,
    Blue,
    Green,
    Red,
    Aqua,
    Yellow,
    Purple,
    Fuchsia,
    MidYellow,
    Grey,
    Rgb(u8, u8, u8),
}

/// The glyph of a character in the font: the printable characters from `!`
/// to `~` follow each other from glyph 2 on, the blank is glyph 1, and
/// every other character is shown as glyph 0.
pub open spec fn glyph(c: char) -> int {
    let d = c as int;
    if 33 <= d <= 126 {
        d - 31
    } else if c == ' ' {
        1
    } else {
        0
    }
}

pub fn char_to_pos(c: char) -> (r: usize)
    ensures
        r == glyph(c),
{
    let d = c as u32;
    if d >= 33 && d <= 126 {
        return (d - 31) as usize;
    }
    if c == ' ' {
        return 1;
    }
    0
}

/// Whether the bottom line shows a text.
#[derive(Debug, PartialEq, Eq, Structural, Clone, Copy)]
pub enum BottomTextState {
    Cleared,
    Shown,
}

impl Default for BottomTextState {
    fn default() -> (s: Self)
        ensures
            s is Cleared,
    {
        BottomTextState::Cleared
    }
}

/// The bottom line is to show the text, or nothing.
pub struct BottomTextEvent(pub Option<String>);

impl BottomTextEvent {
    pub fn from(s: &str) -> (e: Self)
        ensures
            e.0 matches Some(text) && text@ == s@,
    {
        Self(Some(s.to_string()))
    }

    pub fn clear() -> (e: Self)
        ensures
            e.0 is None,
    {
        Self(None)
    }
}

/// What is to be done to the bottom line on an event: whether what it
/// shows is to be taken down, and whether the text of the event is to be
/// put up. A line that shows nothing need not be taken down.
pub fn manage_text_bottom(state: &mut BottomTextState, ev: &BottomTextEvent) -> (r: (bool, bool))
    ensures
        r.0 == (*old(state) is Shown),
        r.1 == (ev.0 is Some),
        *final(state) == (if ev.0 is Some {
            BottomTextState::Shown
        } else {
            BottomTextState::Cleared
        }),
{
    let despawn = match *state {
        BottomTextState::Cleared => false,
        BottomTextState::Shown => true,
    };
    *state = BottomTextState::Cleared;
    let print = ev.0.is_some();
    if print {
        *state = BottomTextState::Shown;
    }
    (despawn, print)
}

/// The frames a piece cycles through: sprite `init` up to sprite `max`.
#[derive(Debug, PartialEq, Eq, Structural, Clone, Copy)]
pub struct RepeatAnimation {
    pub max: usize,
    pub init: usize,
}

impl RepeatAnimation {
    /// The cycle of `num` frames that starts at sprite `init`: its last
    /// frame is sprite `init + num - 1`, which has to be a sprite number.
    pub fn new(init: usize, num: usize) -> (r: Self)
        requires
            init + num >= 1,
            init + num - 1 <= usize::MAX,
        ensures
            r.init == init,
            r.max == init + num - 1,
    {
        let max = if num >= 1 {
            init + (num - 1)
        } else {
            init - 1
        };
        Self { max, init }
    }

    /// The sprite that follows `index`. A living piece steps through its
    /// cycle and starts over behind the last frame, or at once where `index`
    /// lies before the cycle; a dead one shows the sprite behind the cycle.
    pub fn next_index(&self, index: usize, alive: bool) -> (r: usize)
        requires
            index < usize::MAX,
            self.max < usize::MAX,
        ensures
            alive && self.init <= index + 1 <= self.max ==> r == index + 1,
            alive && !(self.init <= index + 1 <= self.max) ==> r == self.init,
            !alive ==> r == self.max + 1,
    {
        if alive {
            let mut next = index + 1;
            if next > self.max {
                next = self.init;
            }
            if next < self.init {
                next = self.init;
            }
            next
        } else {
            self.max + 1
        }
    }
}

/// The first sprite of the first explosion; each further kind of explosion
/// starts ten sprites on.
pub const EXPLOSION_SPRITE: usize = 130;

/// The number of frames of an explosion.
pub const EXPLOSION_FRAMES: usize = 8;

/// An explosion is to be shown on a square.
#[derive(Debug, PartialEq, Eq, Structural, Clone, Copy)]
pub struct StartExplosion {
    pub at: Vec2I,
    pub idx: usize,
}

/// An explosion has been shown to its end.
#[derive(Debug, PartialEq, Eq, Structural, Clone, Copy)]
pub struct FinishedExplosion();

/// The frames of an explosion: up to sprite `max`.
#[derive(Debug, PartialEq, Eq, Structural, Clone, Copy)]
pub struct Explosion {
    pub max: usize,
}

impl Explosion {
    /// An explosion of `num` frames that starts at sprite `init`: its last
    /// frame is sprite `init + num - 1`, which has to be a sprite number.
    pub fn new(init: usize, num: usize) -> (r: Self)
        requires
            init + num >= 1,
            init + num - 1 <= usize::MAX,
        ensures
            r.max == init + num - 1,
    {
        let max = if num >= 1 {
            init + (num - 1)
        } else {
            init - 1
        };
        Self { max }
    }

    /// The sprite that follows `index`, or `None` once the explosion is
    /// over.
    pub fn next_index(&self, index: usize) -> (r: Option<usize>)
        requires
            index < usize::MAX,
        ensures
            r == (if index + 1 > self.max {
                None
            } else {
                Some((index + 1) as usize)
            }),
    {
        let next = index + 1;
        if next > self.max {
            None
        } else {
            Some(next)
        }
    }
}

/// The first sprite of the explosion of kind `idx`, and its frames.
pub fn start_explosion(e: StartExplosion) -> (r: (usize, Explosion))
    requires
        EXPLOSION_SPRITE + 10 * e.idx + EXPLOSION_FRAMES - 1 <= usize::MAX,
    ensures
        r.0 == EXPLOSION_SPRITE + 10 * e.idx,
        r.1.max == r.0 + EXPLOSION_FRAMES - 1,
{
    let sprite_index = EXPLOSION_SPRITE + 10 * e.idx;
    (sprite_index, Explosion::new(sprite_index, EXPLOSION_FRAMES))
}

/// The character that writes the digit `d`.
pub open spec fn digit_char(d: int) -> char {
    if d == 0 {
        '0'
    } else if d == 1 {
        '1'
    } else if d == 2 {
        '2'
    } else if d == 3 {
        '3'
    } else if d == 4 {
        '4'
    } else if d == 5 {
        '5'
    } else if d == 6 {
        '6'
    } else if d == 7 {
        '7'
    } else if d == 8 {
        '8'
    } else {
        '9'
    }
}

/// Decimal digits of `n`, most significant first, without leading zeros.
pub open spec fn decimal(n: nat) -> Seq<char>
    decreases n,
{
    if n < 10 {
        seq![digit_char(n as int)]
    } else {
        decimal(n / 10).push(digit_char((n % 10) as int))
    }
}

fn digit_str(d: u8) -> (s: &'static str)
    requires
        d < 10,
    ensures
        s@ == seq![digit_char(d as int)],
{
    proof {
        reveal_strlit("0");
        reveal_strlit("1");
        reveal_strlit("2");
        reveal_strlit("3");
        reveal_strlit("4");
        reveal_strlit("5");
        reveal_strlit("6");
        reveal_strlit("7");
        reveal_strlit("8");
        reveal_strlit("9");
    }
    let s = if d == 0 {
        "0"
    } else if d == 1 {
        "1"
    } else if d == 2 {
        "2"
    } else if d == 3 {
        "3"
    } else if d == 4 {
        "4"
    } else if d == 5 {
        "5"
    } else if d == 6 {
        "6"
    } else if d == 7 {
        "7"
    } else if d == 8 {
        "8"
    } else {
        "9"
    };
    assert(s@ =~= seq![digit_char(d as int)]);
    s
}

/// Appends the decimal digits of `n` to `text`.
pub fn push_number(text: &mut String, n: u8)
    ensures
        final(text)@ == old(text)@ + decimal(n as nat),
{
    proof {
        reveal_with_fuel(decimal, 3);
    }
    if n >= 100 {
        text.append(digit_str(n / 100));
    }
    if n >= 10 {
        text.append(digit_str((n / 10) % 10));
    }
    text.append(digit_str(n % 10));
    assert(text@ =~= old(text)@ + decimal(n as nat));
}

/// `label` followed by the decimal digits of `n`.
pub fn labelled_number(label: &str, n: u8) -> (text: String)
    ensures
        text@ == label@ + decimal(n as nat),
{
    let mut text = label.to_string();
    push_number(&mut text, n);
    text
}

} // verus!
