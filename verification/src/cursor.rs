//! One- and two-dimensional cursors over a bounded grid.

use vstd::prelude::*;

verus! {

/// A position on a line of `max` cells.
pub struct Cursor {
    x: usize,
    max: usize,
}

/// Mathematical value of a [`Cursor`].
pub struct CursorView {
    pub x: nat,
    pub max: nat,
}

impl View for Cursor {
    type V = CursorView;

    closed spec fn view(&self) -> CursorView {
        CursorView { x: self.x as nat, max: self.max as nat }
    }
}

impl Cursor {
    /// A cursor at position 0 of a line with `max` cells.
    pub fn new(max: usize) -> (c: Self)
        ensures
            c@ == (CursorView { x: 0, max: max as nat }),
    {
        Cursor { x: 0, max }
    }

    /// Current position.
    pub fn x(&self) -> (x: usize)
        ensures
            x == self@.x,
    {
        self.x
    }

    /// Steps one cell forward; refuses, leaving the cursor where it is, once
    /// the position has reached `max`.
    pub fn next(&mut self) -> (r: Option<()>)
        ensures
            r.is_some() <==> old(self)@.x < old(self)@.max,
            final(self)@.max == old(self)@.max,
            final(self)@.x == if old(self)@.x < old(self)@.max {
                old(self)@.x + 1
            } else {
                old(self)@.x
            },
    {
        if self.x >= self.max {
            return None;
        }
        self.x += 1;
        Some(())
    }

    /// Steps one cell back; refuses, leaving the cursor where it is, at
    /// position 0.
    pub fn next_back(&mut self) -> (r: Option<()>)
        ensures
            r.is_some() <==> old(self)@.x > 0,
            final(self)@.max == old(self)@.max,
            final(self)@.x == if old(self)@.x > 0 {
                old(self)@.x - 1
            } else {
                0
            },
    {
        if self.x == 0 {
            return None;
        }
        self.x -= 1;
        Some(())
    }
}

/// Why a cursor move was refused.
#[derive(Debug, Clone, Copy, PartialEq, Eq)]
pub enum CursorError {
    /// The requested coordinate lies beyond the grid.
    OutOfBounds,
}

/// A position on a grid. Columns run from 0 to `width`, rows from 0 to
/// `height`; both bounds are themselves admissible coordinates.
#[derive(Debug, Clone, Copy)]
pub struct Cursor2D {
    x: usize,
    y: usize,
    width: usize,
    height: usize,
}

/// Mathematical value of a [`Cursor2D`].
pub struct Cursor2DView {
    pub x: nat,
    pub y: nat,
    pub width: nat,
    pub height: nat,
}

impl Cursor2DView {
    /// The cursor moved to column `x`, if the grid has such a column.
    pub open spec fn with_x(self, x: nat) -> Option<Cursor2DView> {
        if x > self.width {
            None
        } else {
            Some(Cursor2DView { x, ..self })
        }
    }

    /// The cursor moved to row `y`, if the grid has such a row.
    pub open spec fn with_y(self, y: nat) -> Option<Cursor2DView> {
        if y > self.height {
            None
        } else {
            Some(Cursor2DView { y, ..self })
        }
    }

    /// Whether a line feed is possible: there is a row below.
    pub open spec fn has_next_line(self) -> bool {
        self.y < self.height
    }

    /// The cursor at the start of the following row.
    pub open spec fn line_feed(self) -> Cursor2DView {
        Cursor2DView { x: 0, y: self.y + 1, ..self }
    }

    /// Whether a forward step stays on the grid: only a step off the end of
    /// the last row does not.
    pub open spec fn can_advance(self) -> bool {
        !(self.x + 1 >= self.width && self.y >= self.height)
    }

    /// The cursor after a forward step. The column moves on by one; where
    /// that reaches the width the cursor wraps to the start of the next row.
    /// Where there is no next row the step is refused and the cursor stays.
    pub open spec fn advance(self) -> Cursor2DView {
        if !self.can_advance() {
            self
        } else if self.x + 1 >= self.width {
            Cursor2DView { x: 0, y: self.y + 1, ..self }
        } else {
            Cursor2DView { x: self.x + 1, ..self }
        }
    }

    /// Whether a backward step is possible: anywhere but at the origin.
    pub open spec fn can_retreat(self) -> bool {
        !(self.x == 0 && self.y == 0)
    }

    /// The cursor after a backward step. From column 0 it moves to column
    /// `width` of the row above; elsewhere it stays where it is.
    pub open spec fn retreat(self) -> Cursor2DView {
        if self.x == 0 && self.y > 0 {
            Cursor2DView { x: self.width, y: (self.y - 1) as nat, ..self }
        } else {
            self
        }
    }
}

impl View for Cursor2D {
    type V = Cursor2DView;

    closed spec fn view(&self) -> Cursor2DView {
        Cursor2DView {
            x: self.x as nat,
            y: self.y as nat,
            width: self.width as nat,
            height: self.height as nat,
        }
    }
}

impl Cursor2D {
    /// A cursor at the origin of a grid with the given bounds.
    pub fn new(width: usize, height: usize) -> (c: Self)
        ensures
            c@ == (Cursor2DView { x: 0, y: 0, width: width as nat, height: height as nat }),
    {
        Cursor2D { x: 0, y: 0, width, height }
    }

    /// Replaces the row by what `f` makes of it. A row beyond `height` is
    /// rejected and the cursor stays unchanged.
    pub fn y_with(&mut self, f: impl FnOnce(usize) -> usize) -> (r: Result<(), CursorError>)
        requires
            call_requires(f, (old(self)@.y as usize,)),
        ensures
            exists|y: usize|
                #[trigger] call_ensures(f, (old(self)@.y as usize,), y) && match old(self)@.with_y(y as nat) {
                    Some(moved) => r.is_ok() && final(self)@ == moved,
                    None => r == Err::<(), CursorError>(CursorError::OutOfBounds) && final(self)@
                        == old(self)@,
                },
    {
        let new_y = f(self.y);
        if new_y > self.height {
            return Err(CursorError::OutOfBounds);
        }
        self.y = new_y;
        Ok(())
    }

    /// Replaces the column by what `f` makes of it. A column beyond `width`
    /// is rejected and the cursor stays unchanged.
    pub fn x_with(&mut self, f: impl FnOnce(usize) -> usize) -> (r: Result<(), CursorError>)
        requires
            call_requires(f, (old(self)@.x as usize,)),
        ensures
            exists|x: usize|
                #[trigger] call_ensures(f, (old(self)@.x as usize,), x) && match old(self)@.with_x(x as nat) {
                    Some(moved) => r.is_ok() && final(self)@ == moved,
                    None => r == Err::<(), CursorError>(CursorError::OutOfBounds) && final(self)@
                        == old(self)@,
                },
    {
        let new_x = f(self.x);
        if new_x > self.width {
            return Err(CursorError::OutOfBounds);
        }
        self.x = new_x;
        Ok(())
    }

    /// Moves to the start of the next row; refuses, leaving the cursor
    /// unchanged, on the last row.
    pub fn next_line(&mut self) -> (r: Option<()>)
        ensures
            r.is_some() <==> old(self)@.has_next_line(),
            final(self)@ == if old(self)@.has_next_line() {
                old(self)@.line_feed()
            } else {
                old(self)@
            },
    {
        if self.y >= self.height {
            return None;
        }
        self.y += 1;
        self.x = 0;
        Some(())
    }

    /// Current column.
    pub fn x(&self) -> (x: usize)
        ensures
            x == self@.x,
    {
        self.x
    }

    /// Current row.
    pub fn y(&self) -> (y: usize)
        ensures
            y == self@.y,
    {
        self.y
    }

    /// Largest admissible column.
    pub fn width(&self) -> (w: usize)
        ensures
            w == self@.width,
    {
        self.width
    }

    /// Largest admissible row.
    pub fn height(&self) -> (h: usize)
        ensures
            h == self@.height,
    {
        self.height
    }

    /// Steps one cell forward, wrapping to the next row at the end of a row.
    /// At the end of the last row the step is refused and the cursor stays
    /// where it is.
    pub fn next(&mut self) -> (r: Option<()>)
        ensures
            r.is_some() <==> old(self)@.can_advance(),
            final(self)@ == old(self)@.advance(),
            r.is_none() ==> final(self)@ == old(self)@,
    {
        let at_row_end = self.width == 0 || self.x >= self.width - 1;
        if at_row_end && self.y >= self.height {
            return None;
        } else if at_row_end {
            self.y += 1;
            self.x = 0;
        } else {
            self.x += 1;
        }
        Some(())
    }

    /// Steps back across a row boundary: from column 0 to column `width` of
    /// the row above. Refused at the origin; within a row the cursor stays.
    pub fn next_back(&mut self) -> (r: Option<()>)
        ensures
            r.is_some() <==> old(self)@.can_retreat(),
            final(self)@ == old(self)@.retreat(),
    {
        if self.x == 0 && self.y == 0 {
            return None;
        } else if self.x == 0 {
            self.y -= 1;
            self.x = self.width;
        }
        Some(())
    }
}

} // verus!
