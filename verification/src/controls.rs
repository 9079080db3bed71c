//! The keys the game listens to, and the direction they ask for.

use vstd::prelude::*;

verus! {

/// The keyboard as one frame sees it. The first eleven flags say that a key is
/// held down; the last three say that it went down during this frame.
#[derive(Clone, Copy, Debug, PartialEq, Eq, Structural)]
pub struct Keys {
    pub left: bool,
    pub right: bool,
    pub up: bool,
    pub down: bool,
    pub a: bool,
    pub d: bool,
    pub w: bool,
    pub s: bool,
    pub space: bool,
    pub shift_left: bool,
    pub shift_right: bool,
    pub space_just_pressed: bool,
    pub escape_just_pressed: bool,
    pub p_just_pressed: bool,
}

/// A direction before it is scaled to unit length: each part is -1, 0 or 1.
#[derive(Clone, Copy, Debug, PartialEq, Eq, Structural)]
pub struct Heading {
    pub x: i8,
    pub y: i8,
}

/// One axis of a heading: a step back for the first flag, a step forward for
/// the second, so that two opposite keys cancel.
pub open spec fn axis(backward: bool, forward: bool) -> int {
    (if forward { 1int } else { 0int }) - (if backward { 1int } else { 0int })
}

impl Keys {
    /// Left arrow or A.
    pub open spec fn steers_left(self) -> bool {
        self.left || self.a
    }

    /// Right arrow or D.
    pub open spec fn steers_right(self) -> bool {
        self.right || self.d
    }

    /// Down arrow or S.
    pub open spec fn steers_down(self) -> bool {
        self.down || self.s
    }

    /// Either shift key.
    pub open spec fn runs(self) -> bool {
        self.shift_left || self.shift_right
    }

    /// A keyboard with nothing held and nothing pressed.
    pub open spec fn none_down() -> Keys {
        Keys {
            left: false,
            right: false,
            up: false,
            down: false,
            a: false,
            d: false,
            w: false,
            s: false,
            space: false,
            shift_left: false,
            shift_right: false,
            space_just_pressed: false,
            escape_just_pressed: false,
            p_just_pressed: false,
        }
    }
}

impl Default for Keys {
    /// A keyboard that nobody touches.
    fn default() -> (keys: Keys)
        ensures
            keys == Keys::none_down(),
    {
        Keys {
            left: false,
            right: false,
            up: false,
            down: false,
            a: false,
            d: false,
            w: false,
            s: false,
            space: false,
            shift_left: false,
            shift_right: false,
            space_just_pressed: false,
            escape_just_pressed: false,
            p_just_pressed: false,
        }
    }
}

/// Builds a heading from four steering flags, one pair per axis.
pub fn heading_of(
    leftward: bool,
    rightward: bool,
    downward: bool,
    upward: bool,
) -> (heading: Heading)
    ensures
        heading.x == axis(leftward, rightward),
        heading.y == axis(downward, upward),
{
    let mut x: i8 = 0;
    let mut y: i8 = 0;
    if leftward {
        x = x - 1;
    }
    if rightward {
        x = x + 1;
    }
    if upward {
        y = y + 1;
    }
    if downward {
        y = y - 1;
    }
    Heading { x, y }
}

} // verus!
