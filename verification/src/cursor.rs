//! The position that is shown on the 5 x 5 LED matrix, and how it moves.

use vstd::prelude::*;

verus! {

/// The number of rows, and of columns, of the matrix.
pub const SIDE: usize = 5;

/// One lit position on the matrix. It moves along the rows, from the end of
/// one row to the start of the next and from the last position back to the
/// first.
pub struct Cursor {
    row: usize,
    col: usize,
}

impl Cursor {
    /// The row of the position.
    pub closed spec fn row_spec(&self) -> int {
        self.row as int
    }

    /// The column of the position.
    pub closed spec fn col_spec(&self) -> int {
        self.col as int
    }

    /// The place of the position in reading order, from 0 to 24.
    pub open spec fn index(&self) -> int {
        self.row_spec() * 5 + self.col_spec()
    }

    /// The position lies on the matrix.
    #[verifier::type_invariant]
    pub closed spec fn inv(&self) -> bool {
        self.row < SIDE && self.col < SIDE
    }

    /// The position of every cursor that upholds its invariant lies on the
    /// matrix.
    pub proof fn lemma_on_matrix(self)
        requires
            self.inv(),
        ensures
            0 <= self.row_spec() < 5,
            0 <= self.col_spec() < 5,
            0 <= self.index() < 25,
    {
    }

    /// A cursor on the first position.
    pub fn new() -> (cursor: Cursor)
        ensures
            cursor.row_spec() == 0,
            cursor.col_spec() == 0,
    {
        Cursor { row: 0, col: 0 }
    }

    /// The row of the position.
    pub fn row(&self) -> (row: usize)
        ensures
            row == self.row_spec(),
            row < 5,
    {
        proof {
            use_type_invariant(self);
        }
        self.row
    }

    /// The column of the position.
    pub fn col(&self) -> (col: usize)
        ensures
            col == self.col_spec(),
            col < 5,
    {
        proof {
            use_type_invariant(self);
        }
        self.col
    }

    /// Whether the cursor is on `[i][j]`.
    pub fn at(&self, i: usize, j: usize) -> (here: bool)
        ensures
            here <==> i == self.row_spec() && j == self.col_spec(),
    {
        i == self.row && j == self.col
    }

    /// Moves one position back: to the previous column, from the start of a
    /// row to the end of the row before, and from the first position to the
    /// last.
    pub fn back(&mut self)
        ensures
            final(self).index() == (old(self).index() + 24) % 25,
            0 <= final(self).row_spec() < 5,
            0 <= final(self).col_spec() < 5,
    {
        proof {
            use_type_invariant(&*self);
        }
        if self.col == 0 {
            let row: usize = if self.row == 0 {
                SIDE - 1
            } else {
                self.row - 1
            };
            self.row = row;
            self.col = SIDE - 1;
        } else {
            self.col = self.col - 1;
        }
    }

    /// Moves one position on: to the next column, from the end of a row to
    /// the start of the next row, and from the last position to the first.
    pub fn forward(&mut self)
        ensures
            final(self).index() == (old(self).index() + 1) % 25,
            0 <= final(self).row_spec() < 5,
            0 <= final(self).col_spec() < 5,
    {
        proof {
            use_type_invariant(&*self);
        }
        if self.col + 1 >= SIDE {
            let row: usize = if self.row + 1 >= SIDE {
                0
            } else {
                self.row + 1
            };
            self.row = row;
            self.col = 0;
        } else {
            self.col = self.col + 1;
        }
    }
}

/// The position that tick number `count` of a running scan shows: the scan
/// visits the positions in reading order and starts over after the last.
pub fn position_of_tick(count: usize) -> (position: (usize, usize))
    ensures
        position.0 == (count / 5) % 5,
        position.1 == count % 5,
        position.0 * 5 + position.1 == count % 25,
{
    ((count / SIDE) % SIDE, count % SIDE)
}

/// One step back undoes one step on, and one step on undoes one step back.
pub proof fn lemma_back_undoes_forward(start: Cursor, moved: Cursor, returned: Cursor)
    requires
        start.inv(),
        moved.inv(),
        returned.inv(),
        moved.index() == (start.index() + 1) % 25 && returned.index() == (moved.index() + 24) % 25
            || moved.index() == (start.index() + 24) % 25 && returned.index() == (moved.index()
            + 1) % 25,
    ensures
        returned.row_spec() == start.row_spec(),
        returned.col_spec() == start.col_spec(),
{
    let i = start.index();
    let j = moved.index();
    assert(0 <= i < 25 && 0 <= j < 25);
    if j == (i + 1) % 25 && returned.index() == (j + 24) % 25 {
        assert(j == if i == 24 { 0 } else { i + 1 });
        assert((j + 24) % 25 == i);
    } else {
        assert(j == if i == 0 { 24 } else { i - 1 });
        assert((j + 1) % 25 == i);
    }
    assert(returned.index() == i);
    lemma_index_fixes_position(start, returned);
}

/// A position on the matrix is fixed by its place in reading order.
pub proof fn lemma_index_fixes_position(a: Cursor, b: Cursor)
    requires
        a.inv(),
        b.inv(),
    ensures
        a.index() == b.index() <==> a.row_spec() == b.row_spec() && a.col_spec() == b.col_spec(),
{
}

} // verus!
