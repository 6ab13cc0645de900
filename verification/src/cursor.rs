//! The cursor: a grid position moved one cell at a time, clamped to the map.

use vstd::prelude::*;

verus! {

/// One step down, saturating at zero.
pub open spec fn sat_dec(x: u8) -> u8 {
    if x == 0 {
        0
    } else {
        (x - 1) as u8
    }
}

/// One step up, saturating at the largest `u8` value.
pub open spec fn sat_inc(x: u8) -> u8 {
    if x == 255 {
        255
    } else {
        (x + 1) as u8
    }
}

/// The smaller of two coordinates.
pub open spec fn min_u8(a: u8, b: u8) -> u8 {
    if a < b {
        a
    } else {
        b
    }
}

/// A cursor position on the grid: column `.0`, row `.1`.
#[derive(Clone, Copy, PartialEq, Eq, Structural, Debug)]
pub struct Cursor(pub u8, pub u8);

impl Cursor {
    /// One cell to the left, stopping at column zero.
    pub fn move_left(&mut self)
        ensures
            final(self).0 == sat_dec(old(self).0),
            final(self).1 == old(self).1,
    {
        if self.0 > 0 {
            self.0 = self.0 - 1;
        }
    }

    /// One cell to the right, never past `upper_bound` (the last column).
    pub fn move_right(&mut self, upper_bound: u8)
        ensures
            final(self).0 == min_u8(sat_inc(old(self).0), upper_bound),
            final(self).1 == old(self).1,
    {
        let stepped: u8 = if self.0 == 255 {
            255
        } else {
            self.0 + 1
        };
        self.0 = if stepped < upper_bound {
            stepped
        } else {
            upper_bound
        };
    }

    /// One cell up, never past `upper_bound` (the last row).
    pub fn move_up(&mut self, upper_bound: u8)
        ensures
            final(self).1 == min_u8(sat_inc(old(self).1), upper_bound),
            final(self).0 == old(self).0,
    {
        let stepped: u8 = if self.1 == 255 {
            255
        } else {
            self.1 + 1
        };
        self.1 = if stepped < upper_bound {
            stepped
        } else {
            upper_bound
        };
    }

    /// One cell down, stopping at row zero.
    pub fn move_down(&mut self)
        ensures
            final(self).1 == sat_dec(old(self).1),
            final(self).0 == old(self).0,
    {
        if self.1 > 0 {
            self.1 = self.1 - 1;
        }
    }

    /// The cursor lies on the map: within both bounds.
    pub open spec fn in_bounds(&self, width: u8, height: u8) -> bool {
        self.0 < width && self.1 < height
    }
}

impl Default for Cursor {
    /// A fresh cursor starts at the map origin.
    fn default() -> (c: Cursor)
        ensures
            c == (Cursor(0, 0)),
    {
        Cursor(0, 0)
    }
}

} // verus!
