//! Direction Resolver: collapses a fighter's raw pressed-direction flags into
//! one of nine canonical facings, cancelling opposite pairs.

use vstd::prelude::*;

verus! {

/// The raw pressed-direction state of a fighter: one flag per direction,
/// set and cleared by press and release events, not mutually exclusive.
#[derive(Clone, Copy, Debug, PartialEq, Eq, Structural)]
pub struct DirectionFlags {
    pub up: bool,
    pub down: bool,
    pub left: bool,
    pub right: bool,
}

impl Default for DirectionFlags {
    /// No direction pressed.
    fn default() -> (r: Self)
        ensures
            r == (DirectionFlags { up: false, down: false, left: false, right: false }),
    {
        DirectionFlags { up: false, down: false, left: false, right: false }
    }
}

/// Which of the four raw direction flags an input event addresses.
#[derive(Clone, Copy, Debug, PartialEq, Eq, Structural)]
pub enum DirectionFlag {
    Up,
    Down,
    Left,
    Right,
}

/// One of the nine canonical facings a raw flag set resolves to.
#[derive(Clone, Copy, Debug, PartialEq, Eq, Structural)]
pub enum Facing {
    Neutral,
    Up,
    Down,
    Left,
    Right,
    UpLeft,
    UpRight,
    DownLeft,
    DownRight,
}

impl DirectionFlags {
    /// The state with no direction pressed.
    pub fn none() -> (r: DirectionFlags)
        ensures
            r == (DirectionFlags { up: false, down: false, left: false, right: false }),
    {
        DirectionFlags { up: false, down: false, left: false, right: false }
    }

    /// `self` with the addressed flag set to `pressed` and the rest unchanged.
    pub open spec fn with_flag_spec(self, which: DirectionFlag, pressed: bool) -> DirectionFlags {
        match which {
            DirectionFlag::Up => DirectionFlags { up: pressed, ..self },
            DirectionFlag::Down => DirectionFlags { down: pressed, ..self },
            DirectionFlag::Left => DirectionFlags { left: pressed, ..self },
            DirectionFlag::Right => DirectionFlags { right: pressed, ..self },
        }
    }

    /// Records a press (`pressed == true`) or release of one direction.
    pub fn set_flag(&mut self, which: DirectionFlag, pressed: bool)
        ensures
            *final(self) == old(self).with_flag_spec(which, pressed),
    {
        match which {
            DirectionFlag::Up => self.up = pressed,
            DirectionFlag::Down => self.down = pressed,
            DirectionFlag::Left => self.left = pressed,
            DirectionFlag::Right => self.right = pressed,
        }
    }

    /// The canonical facing of a raw flag set: opposite pairs cancel, and the
    /// remaining flags name one of the eight directions, or `Neutral` when
    /// nothing remains.
    pub open spec fn facing_spec(self) -> Facing {
        let v = self.up && !self.down;
        let d = self.down && !self.up;
        let l = self.left && !self.right;
        let r = self.right && !self.left;
        if v && l {
            Facing::UpLeft
        } else if v && r {
            Facing::UpRight
        } else if d && l {
            Facing::DownLeft
        } else if d && r {
            Facing::DownRight
        } else if v {
            Facing::Up
        } else if d {
            Facing::Down
        } else if l {
            Facing::Left
        } else if r {
            Facing::Right
        } else {
            Facing::Neutral
        }
    }

    /// Resolves the raw flags to their canonical facing.
    pub fn resolve_facing(&self) -> (f: Facing)
        ensures
            f == self.facing_spec(),
    {
        let up = self.up && !self.down;
        let down = self.down && !self.up;
        let left = self.left && !self.right;
        let right = self.right && !self.left;
        if up && left {
            Facing::UpLeft
        } else if up && right {
            Facing::UpRight
        } else if down && left {
            Facing::DownLeft
        } else if down && right {
            Facing::DownRight
        } else if up {
            Facing::Up
        } else if down {
            Facing::Down
        } else if left {
            Facing::Left
        } else if right {
            Facing::Right
        } else {
            Facing::Neutral
        }
    }
}

/// Opposite pairs cancel: a flag set whose vertical flags agree and whose
/// horizontal flags agree resolves to `Neutral`, whatever is pressed.
pub proof fn lemma_opposites_cancel(d: DirectionFlags)
    requires
        d.up == d.down,
        d.left == d.right,
    ensures
        d.facing_spec() == Facing::Neutral,
{
}

/// The resolver never invents a direction: a resolved non-neutral facing only
/// points where a flag was actually pressed.
pub proof fn lemma_facing_faithful(d: DirectionFlags)
    ensures
        d.facing_spec() == Facing::Up || d.facing_spec() == Facing::UpLeft
            || d.facing_spec() == Facing::UpRight ==> d.up,
        d.facing_spec() == Facing::Down || d.facing_spec() == Facing::DownLeft
            || d.facing_spec() == Facing::DownRight ==> d.down,
        d.facing_spec() == Facing::Left || d.facing_spec() == Facing::UpLeft
            || d.facing_spec() == Facing::DownLeft ==> d.left,
        d.facing_spec() == Facing::Right || d.facing_spec() == Facing::UpRight
            || d.facing_spec() == Facing::DownRight ==> d.right,
{
}

} // verus!
