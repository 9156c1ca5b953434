//! The model of the automaton: what a generation is and which one follows it.

use vstd::prelude::*;

verus! {

/// How many cells of `states` are alive.
pub open spec fn live_count(states: Seq<bool>) -> nat
    decreases states.len(),
{
    if states.len() == 0 {
        0
    } else {
        live_count(states.drop_last()) + if states.last() { 1nat } else { 0nat }
    }
}

/// One generation: a board of `width` columns and `height` rows whose cells
/// are stored row by row, `true` for a live cell.
pub struct Generation {
    pub width: nat,
    pub height: nat,
    pub cells: Seq<bool>,
}

impl Generation {
    /// The board has at least one cell, and exactly one state per cell.
    pub open spec fn wf(self) -> bool {
        &&& self.width > 0
        &&& self.height > 0
        &&& self.cells.len() == self.width * self.height
    }

    /// Whether `(x, y)` names a cell of the board.
    pub open spec fn contains(self, x: int, y: int) -> bool {
        0 <= x < self.width && 0 <= y < self.height
    }

    /// Where the state of cell `(x, y)` is stored.
    pub open spec fn index_of(self, x: int, y: int) -> int {
        x + self.width * y
    }

    /// The state of cell `(x, y)`.
    pub open spec fn alive(self, x: int, y: int) -> bool {
        self.cells[self.index_of(x, y)]
    }

    /// Whether `(x, y)` lies in the first or last column or row, or beyond.
    pub open spec fn on_border(self, x: int, y: int) -> bool {
        x <= 0 || y <= 0 || x >= self.width - 1 || y >= self.height - 1
    }

    /// The states of the eight cells around `(x, y)`, row by row from the
    /// upper left to the lower right. A cell on the border is counted as
    /// having no neighbours at all.
    pub open spec fn neighbors(self, x: int, y: int) -> Seq<bool> {
        if self.on_border(x, y) {
            Seq::empty()
        } else {
            seq![
                self.alive(x - 1, y - 1),
                self.alive(x, y - 1),
                self.alive(x + 1, y - 1),
                self.alive(x - 1, y),
                self.alive(x + 1, y),
                self.alive(x - 1, y + 1),
                self.alive(x, y + 1),
                self.alive(x + 1, y + 1),
            ]
        }
    }

    /// The number of live cells among the neighbours of `(x, y)`.
    pub open spec fn live_neighbors(self, x: int, y: int) -> nat {
        live_count(self.neighbors(x, y))
    }

    /// The rule: a live cell stays alive with two or three live neighbours,
    /// a dead cell comes alive with exactly three.
    pub open spec fn lives_on(self, x: int, y: int) -> bool {
        let n = self.live_neighbors(x, y);
        if self.alive(x, y) {
            n == 2 || n == 3
        } else {
            n == 3
        }
    }

    /// The states of the following generation, every one of them computed
    /// from this generation alone.
    pub open spec fn next_cells(self) -> Seq<bool> {
        Seq::new(
            self.cells.len(),
            |i: int| self.lives_on(i % (self.width as int), i / (self.width as int)),
        )
    }

    /// The generation that follows this one.
    pub open spec fn next(self) -> Generation {
        Generation { width: self.width, height: self.height, cells: self.next_cells() }
    }
}

/// The picture of `cells`: four bytes for each cell, in the order of the
/// cells, which are `live` for a live cell and `dead` for a dead one.
pub open spec fn picture(cells: Seq<bool>, live: [u8; 4], dead: [u8; 4]) -> Seq<u8> {
    Seq::new(
        4 * cells.len(),
        |j: int|
            if cells[j / 4] {
                live@[j % 4]
            } else {
                dead@[j % 4]
            },
    )
}

/// The number of cells of a board whose sides fit in 32 bits fits in 64.
pub proof fn lemma_area_fits(width: u32, height: u32)
    by (nonlinear_arith)
    ensures
        0 <= width * height <= u64::MAX,
{
}

/// The cell `(x, y)` of a board is stored inside its `width * height` states.
pub proof fn lemma_index_in_range(width: int, height: int, x: int, y: int)
    by (nonlinear_arith)
    requires
        0 <= x < width,
        0 <= y < height,
    ensures
        0 <= x + width * y < width * height,
        0 <= width * y,
{
}

/// The place where a cell is stored gives its column and row back.
pub proof fn lemma_index_round_trip(width: int, x: int, y: int)
    requires
        0 <= x < width,
    ensures
        (x + width * y) % width == x,
        (x + width * y) / width == y,
{
    vstd::arithmetic::mul::lemma_mul_is_commutative(width, y);
    vstd::arithmetic::div_mod::lemma_fundamental_div_mod_converse(x + width * y, width, y, x);
}

/// Every place below `width * height` is that of one cell of the board.
pub proof fn lemma_place_is_a_cell(width: int, height: int, i: int)
    requires
        0 < width,
        0 <= i < width * height,
    ensures
        0 <= i % width < width,
        0 <= i / width < height,
        i == i % width + width * (i / width),
{
    vstd::arithmetic::div_mod::lemma_fundamental_div_mod(i, width);
    vstd::arithmetic::div_mod::lemma_multiply_divide_lt(i, width, height);
    vstd::arithmetic::div_mod::lemma_div_pos_is_pos(i, width);
    vstd::arithmetic::div_mod::lemma_mod_bound(i, width);
}

} // verus!
