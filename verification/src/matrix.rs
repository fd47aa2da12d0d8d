//! The 5 x 5 LED matrix of the micro:bit, as the levels of the 3 row pins
//! and 9 column pins that drive it.

use vstd::prelude::*;

verus! {

/// The level that an output pin is driven to.
#[derive(Clone, Copy, Debug, PartialEq, Eq, Structural)]
pub enum Level {
    Low,
    High,
}

/// The wiring of the matrix: for each LED, by its position `[x][y]` on the
/// board, the row pin and the column pin between which it sits.
pub open spec fn wiring() -> Seq<Seq<(usize, usize)>> {
    seq![
        seq![(0usize, 0usize), (1usize, 3usize), (0usize, 1usize), (1usize, 4usize), (0usize, 2usize)],
        seq![(2usize, 3usize), (2usize, 4usize), (2usize, 5usize), (2usize, 6usize), (2usize, 7usize)],
        seq![(1usize, 1usize), (0usize, 8usize), (1usize, 2usize), (2usize, 8usize), (1usize, 0usize)],
        seq![(0usize, 7usize), (0usize, 6usize), (0usize, 5usize), (0usize, 4usize), (0usize, 3usize)],
        seq![(2usize, 2usize), (1usize, 6usize), (2usize, 0usize), (1usize, 5usize), (2usize, 1usize)],
    ]
}

/// The row pin and the column pin of the LED at `[x][y]`.
pub open spec fn pins_of(x: int, y: int) -> (usize, usize) {
    wiring()[x][y]
}

/// The row pin and the column pin of the LED at `[x][y]`.
pub fn coordinates(x: usize, y: usize) -> (pins: (usize, usize))
    requires
        x < 5,
        y < 5,
    ensures
        pins == pins_of(x as int, y as int),
        pins.0 < 3,
        pins.1 < 9,
{
    let table: [[(usize, usize); 5]; 5] = [
        [(0, 0), (1, 3), (0, 1), (1, 4), (0, 2)],
        [(2, 3), (2, 4), (2, 5), (2, 6), (2, 7)],
        [(1, 1), (0, 8), (1, 2), (2, 8), (1, 0)],
        [(0, 7), (0, 6), (0, 5), (0, 4), (0, 3)],
        [(2, 2), (1, 6), (2, 0), (1, 5), (2, 1)],
    ];
    table[x][y]
}

/// No two LEDs sit between the same pair of pins.
pub proof fn lemma_wiring_injective(x: int, y: int, i: int, j: int)
    requires
        0 <= x < 5,
        0 <= y < 5,
        0 <= i < 5,
        0 <= j < 5,
    ensures
        pins_of(x, y) == pins_of(i, j) <==> x == i && y == j,
        pins_of(x, y).0 < 3,
        pins_of(x, y).1 < 9,
{
}

/// The levels of the pins that drive the matrix. An LED is lit while its
/// row pin is high and its column pin is low.
pub struct LedMatrix {
    rows: [Level; 3],
    cols: [Level; 9],
}

impl LedMatrix {
    /// The levels of the three row pins.
    pub closed spec fn rows(&self) -> Seq<Level> {
        self.rows@
    }

    /// The levels of the nine column pins.
    pub closed spec fn cols(&self) -> Seq<Level> {
        self.cols@
    }

    /// Whether the LED at `[x][y]` is lit.
    pub open spec fn lit(&self, x: int, y: int) -> bool {
        &&& self.rows()[pins_of(x, y).0 as int] == Level::High
        &&& self.cols()[pins_of(x, y).1 as int] == Level::Low
    }

    /// Every row pin is low and every column pin is high: no LED is lit.
    pub open spec fn dark(&self) -> bool {
        &&& self.rows() == Seq::new(3, |r: int| Level::Low)
        &&& self.cols() == Seq::new(9, |c: int| Level::High)
    }

    /// A matrix with every LED off.
    pub fn new() -> (m: LedMatrix)
        ensures
            m.dark(),
    {
        let mut m = LedMatrix { rows: [Level::Low; 3], cols: [Level::Low; 9] };
        m.clear();
        m
    }

    /// Turns every LED off.
    pub fn clear(&mut self)
        ensures
            final(self).dark(),
    {
        self.rows = [Level::Low; 3];
        self.cols = [Level::High; 9];
        assert(self.rows@ =~= Seq::new(3, |r: int| Level::Low));
        assert(self.cols@ =~= Seq::new(9, |c: int| Level::High));
    }

    /// Turns the LED at `[x][y]` on: its row pin goes high and its column
    /// pin goes low. The other pins keep their levels.
    pub fn on(&mut self, x: usize, y: usize)
        requires
            x < 5,
            y < 5,
        ensures
            final(self).rows() == old(self).rows().update(
                pins_of(x as int, y as int).0 as int,
                Level::High,
            ),
            final(self).cols() == old(self).cols().update(
                pins_of(x as int, y as int).1 as int,
                Level::Low,
            ),
            final(self).lit(x as int, y as int),
    {
        let (r, c) = coordinates(x, y);
        self.rows[r] = Level::High;
        self.cols[c] = Level::Low;
    }

    /// Turns the LED at `[x][y]` off: its row pin goes low and its column
    /// pin goes high. The other pins keep their levels.
    pub fn off(&mut self, x: usize, y: usize)
        requires
            x < 5,
            y < 5,
        ensures
            final(self).rows() == old(self).rows().update(
                pins_of(x as int, y as int).0 as int,
                Level::Low,
            ),
            final(self).cols() == old(self).cols().update(
                pins_of(x as int, y as int).1 as int,
                Level::High,
            ),
            !final(self).lit(x as int, y as int),
    {
        let (r, c) = coordinates(x, y);
        self.rows[r] = Level::Low;
        self.cols[c] = Level::High;
    }

    /// The level of row pin `r`.
    pub fn row(&self, r: usize) -> (level: Level)
        requires
            r < 3,
        ensures
            level == self.rows()[r as int],
    {
        self.rows[r]
    }

    /// The level of column pin `c`.
    pub fn col(&self, c: usize) -> (level: Level)
        requires
            c < 9,
        ensures
            level == self.cols()[c as int],
    {
        self.cols[c]
    }
}

/// On a dark matrix, turning one LED on lights that LED and no other.
pub proof fn lemma_one_led(before: LedMatrix, after: LedMatrix, x: int, y: int, i: int, j: int)
    requires
        0 <= x < 5,
        0 <= y < 5,
        0 <= i < 5,
        0 <= j < 5,
        before.dark(),
        after.rows() == before.rows().update(pins_of(x, y).0 as int, Level::High),
        after.cols() == before.cols().update(pins_of(x, y).1 as int, Level::Low),
    ensures
        after.lit(i, j) <==> i == x && j == y,
{
    lemma_wiring_injective(x, y, i, j);
}

} // verus!
