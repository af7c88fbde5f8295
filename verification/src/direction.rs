//! The arrow keys that are held, and the direction they give.
use vstd::prelude::*;
use crate::fixed::Vec2;
use crate::text::same_text;

verus! {

/// Which of the four arrow keys are currently held.
#[derive(Clone, Copy, Debug, PartialEq, Eq, Structural)]
pub struct Direction {
    pub up: bool,
    pub down: bool,
    pub left: bool,
    pub right: bool,
}

/// One axis of the direction: `1` if only the forward key is held, `-1` if
/// only the backward key is, `0` if neither or both are.
pub open spec fn axis(forward: bool, backward: bool) -> int {
    if forward && !backward {
        1
    } else if backward && !forward {
        -1
    } else {
        0
    }
}

/// `d` after the key `code` was pressed (`val`) or released (`!val`): an
/// arrow key sets its flag, every other code changes nothing.
pub open spec fn with_key(d: Direction, code: Seq<char>, val: bool) -> Direction {
    if code == "ArrowUp"@ {
        Direction { up: val, ..d }
    } else if code == "ArrowDown"@ {
        Direction { down: val, ..d }
    } else if code == "ArrowLeft"@ {
        Direction { left: val, ..d }
    } else if code == "ArrowRight"@ {
        Direction { right: val, ..d }
    } else {
        d
    }
}

impl Direction {
    /// No key held.
    pub fn new() -> (d: Self)
        ensures
            d == (Direction { up: false, down: false, left: false, right: false }),
    {
        Direction { up: false, down: false, left: false, right: false }
    }

    /// Records that the key `code` went down.
    pub fn down(&mut self, code: &str)
        ensures
            *final(self) == with_key(*old(self), code@, true),
    {
        self.set(code, true);
    }

    /// Records that the key `code` came up.
    pub fn up(&mut self, code: &str)
        ensures
            *final(self) == with_key(*old(self), code@, false),
    {
        self.set(code, false);
    }

    /// Sets the flag of the arrow key `code` to `val`; any other code is
    /// ignored.
    pub fn set(&mut self, code: &str, val: bool)
        ensures
            *final(self) == with_key(*old(self), code@, val),
    {
        if same_text(code, "ArrowUp") {
            self.up = val;
        } else if same_text(code, "ArrowDown") {
            self.down = val;
        } else if same_text(code, "ArrowLeft") {
            self.left = val;
        } else if same_text(code, "ArrowRight") {
            self.right = val;
        }
    }

    /// The direction of movement: each coordinate is `-1`, `0` or `1`, and
    /// two opposite keys held together cancel.
    pub fn direction(&self) -> (v: Vec2)
        ensures
            v.x == axis(self.right, self.left),
            v.y == axis(self.up, self.down),
    {
        let x: i64 = if self.right && !self.left {
            1
        } else if self.left && !self.right {
            -1
        } else {
            0
        };
        let y: i64 = if self.up && !self.down {
            1
        } else if self.down && !self.up {
            -1
        } else {
            0
        };
        Vec2 { x, y }
    }
}

} // verus!
