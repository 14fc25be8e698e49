use vstd::prelude::*;

use crate::cell::GolCell;

verus! {

/// Error raised when a supplied coordinate lies outside the board's
/// declared dimensions.
#[derive(Clone, Copy, Debug, PartialEq, Eq, Structural)]
pub enum GolError {
    OutOfBounds,
}

/// 1 for a live cell, 0 for a dead one; the unit the neighbor count is
/// summed in.
pub open spec fn count_one(b: bool) -> int {
    if b {
        1
    } else {
        0
    }
}

/// Whether `(i, j)` is one of the up-to-8 positions of the Moore
/// neighborhood of `(r, c)`: adjacent horizontally, vertically or
/// diagonally, the center itself excluded.
pub open spec fn is_moore_neighbor(r: int, c: int, i: int, j: int) -> bool {
    r - 1 <= i <= r + 1 && c - 1 <= j <= c + 1 && !(i == r && j == c)
}

/// Appends a coordinate known to be new, keeping the list duplicate-free.
fn push_coord(v: &mut Vec<(usize, usize)>, p: (usize, usize))
    requires
        old(v)@.no_duplicates(),
        !old(v)@.contains(p),
    ensures
        final(v)@.no_duplicates(),
        forall|q: (usize, usize)| #[trigger] final(v)@.contains(q) <==> old(v)@.contains(q) || q
            == p,
{
    let ghost prev = v@;
    v.push(p);
    proof {
        broadcast use vstd::seq_lib::lemma_seq_contains_after_push;

        assert(v@ == prev.push(p));
        assert forall|a: int, b: int|
            0 <= a < v@.len() && 0 <= b < v@.len() && a != b implies v@[a] != v@[b] by {
            if a == prev.len() as int {
                assert(prev.contains(prev[b]));
            } else if b == prev.len() as int {
                assert(prev.contains(prev[a]));
            }
        }
    }
}

/// Whether the coordinate list mentions `(r, c)`.
fn list_contains(locs: &Vec<(usize, usize)>, r: usize, c: usize) -> (b: bool)
    ensures
        b == locs@.contains((r, c)),
{
    for k in 0..locs.len()
        invariant
            forall|kk: int| 0 <= kk < k ==> #[trigger] locs@[kk] != (r, c),
    {
        if locs[k].0 == r && locs[k].1 == c {
            assert(locs@[k as int] == (r, c));
            return true;
        }
    }
    false
}

/// A fixed-size rectangular Game of Life grid.
///
/// The grid is stored densely, row-major, one `GolCell` per position.
/// Coordinates are `(row, col)` with `0 <= row < height` and
/// `0 <= col < width`; nothing outside that range is ever stored or
/// enumerated, and the grid does not wrap around.
#[derive(Clone, Debug)]
pub struct GolBoard {
    height: usize,
    width: usize,
    cells: Vec<Vec<GolCell>>,
}

impl GolBoard {
    /// The board's height, as a mathematical integer.
    pub closed spec fn spec_height(self) -> int {
        self.height as int
    }

    /// The board's width, as a mathematical integer.
    pub closed spec fn spec_width(self) -> int {
        self.width as int
    }

    /// The stored grid, as a sequence of rows.
    pub closed spec fn grid(self) -> Seq<Seq<GolCell>> {
        self.cells@.map(|i: int, row: Vec<GolCell>| row@)
    }

    /// The grid really is `height` rows of `width` cells each.
    pub closed spec fn wf(self) -> bool {
        &&& self.cells@.len() == self.height
        &&& forall|i: int|
            0 <= i < self.cells@.len() ==> (#[trigger] self.cells@[i])@.len() == self.width
    }

    /// Whether `(r, c)` lies on the board.
    pub open spec fn in_bounds(self, r: int, c: int) -> bool {
        0 <= r < self.spec_height() && 0 <= c < self.spec_width()
    }

    /// Whether the cell at `(r, c)` is Alive. Coordinates off the board
    /// read as Dead.
    pub open spec fn alive(self, r: int, c: int) -> bool {
        self.in_bounds(r, c) && self.grid()[r][c] == GolCell::Alive
    }

    /// The number of live cells in the Moore neighborhood of `(r, c)`:
    /// the up-to-8 positions adjacent horizontally, vertically or
    /// diagonally. Positions off the board count as dead, so border
    /// cells simply have fewer live neighbors available.
    pub open spec fn neighbor_count(self, r: int, c: int) -> int {
        count_one(self.alive(r - 1, c - 1)) + count_one(self.alive(r - 1, c)) + count_one(
            self.alive(r - 1, c + 1),
        ) + count_one(self.alive(r, c - 1)) + count_one(self.alive(r, c + 1)) + count_one(
            self.alive(r + 1, c - 1),
        ) + count_one(self.alive(r + 1, c)) + count_one(self.alive(r + 1, c + 1))
    }

    /// The B3/S23 transition rule: whether `(r, c)` is Alive in the next
    /// generation, given the current one. Off-board positions stay dead.
    pub open spec fn next_alive(self, r: int, c: int) -> bool {
        self.in_bounds(r, c) && (if self.alive(r, c) {
            self.neighbor_count(r, c) == 2 || self.neighbor_count(r, c) == 3
        } else {
            self.neighbor_count(r, c) == 3
        })
    }

    /// A board of the given dimensions with every cell Dead. Zero
    /// dimensions are allowed and give an empty board.
    pub fn new(height: usize, width: usize) -> (r: Self)
        ensures
            r.wf(),
            r.spec_height() == height,
            r.spec_width() == width,
            forall|i: int, j: int| !r.alive(i, j),
    {
        let mut cells: Vec<Vec<GolCell>> = Vec::new();
        for i in 0..height
            invariant
                cells@.len() == i,
                forall|k: int|
                    0 <= k < i ==> (#[trigger] cells@[k])@.len() == width && forall|j: int|
                        0 <= j < width ==> cells@[k]@[j] == GolCell::Dead,
        {
            let mut row: Vec<GolCell> = Vec::new();
            for j in 0..width
                invariant
                    row@.len() == j,
                    forall|jj: int| 0 <= jj < j ==> row@[jj] == GolCell::Dead,
            {
                row.push(GolCell::Dead);
            }
            cells.push(row);
        }
        GolBoard { height, width, cells }
    }

    /// Equivalent to `new(size, size)`.
    pub fn new_square(size: usize) -> (r: Self)
        ensures
            r.wf(),
            r.spec_height() == size,
            r.spec_width() == size,
            forall|i: int, j: int| !r.alive(i, j),
    {
        Self::new(size, size)
    }

    /// A board read off a matrix of numeric entries: zero is Dead,
    /// anything else Alive. The height is the number of rows and the
    /// width the length of the first row. A malformed matrix is
    /// truncated rather than rejected: entries beyond the first row's
    /// width are ignored, and positions a short row leaves out read as
    /// Dead.
    pub fn from_slice(matrix: &Vec<Vec<u8>>) -> (r: Self)
        ensures
            r.wf(),
            r.spec_height() == matrix@.len(),
            r.spec_width() == (if matrix@.len() > 0 {
                matrix@[0]@.len() as int
            } else {
                0
            }),
            forall|i: int, j: int|
                #[trigger] r.alive(i, j) <==> (0 <= i < matrix@.len() && 0 <= j < r.spec_width()
                    && j < matrix@[i]@.len() && matrix@[i]@[j] != 0),
    {
        let height = matrix.len();
        let width = if height > 0 {
            matrix[0].len()
        } else {
            0
        };
        let mut cells: Vec<Vec<GolCell>> = Vec::new();
        for i in 0..height
            invariant
                height == matrix@.len(),
                cells@.len() == i,
                forall|k: int|
                    0 <= k < i ==> (#[trigger] cells@[k])@.len() == width && forall|j: int|
                        0 <= j < width ==> (cells@[k]@[j] == GolCell::Alive <==> j < matrix@[k]@.len()
                            && matrix@[k]@[j] != 0),
        {
            let src = &matrix[i];
            let mut row: Vec<GolCell> = Vec::new();
            for j in 0..width
                invariant
                    src@ == matrix@[i as int]@,
                    row@.len() == j,
                    forall|jj: int|
                        0 <= jj < j ==> ((#[trigger] row@[jj]) == GolCell::Alive <==> jj
                            < src@.len() && src@[jj] != 0),
            {
                let cell = if j < src.len() {
                    GolCell::from(src[j])
                } else {
                    GolCell::Dead
                };
                row.push(cell);
            }
            cells.push(row);
        }
        GolBoard { height, width, cells }
    }

    /// A board of the given size with exactly the listed coordinates
    /// Alive; duplicates collapse. If any listed coordinate lies outside
    /// `[0, height) x [0, width)` the whole construction fails with
    /// `OutOfBounds` instead of storing it.
    pub fn from_alive_list(height: usize, width: usize, alive_locs: Vec<(usize, usize)>) -> (r:
        Result<Self, GolError>)
        ensures
            r is Ok <==> (forall|k: int|
                0 <= k < alive_locs@.len() ==> (#[trigger] alive_locs@[k]).0 < height
                    && alive_locs@[k].1 < width),
            r matches Ok(b) ==> {
                &&& b.wf()
                &&& b.spec_height() == height
                &&& b.spec_width() == width
                &&& forall|i: int, j: int|
                    #[trigger] b.alive(i, j) <==> (0 <= i < height && 0 <= j < width
                        && alive_locs@.contains((i as usize, j as usize)))
            },
            r matches Err(e) ==> e == GolError::OutOfBounds,
    {
        for k in 0..alive_locs.len()
            invariant
                forall|kk: int|
                    0 <= kk < k ==> (#[trigger] alive_locs@[kk]).0 < height && alive_locs@[kk].1
                        < width,
        {
            let (r0, c0) = alive_locs[k];
            if r0 >= height || c0 >= width {
                return Err(GolError::OutOfBounds);
            }
        }
        let mut cells: Vec<Vec<GolCell>> = Vec::new();
        for i in 0..height
            invariant
                cells@.len() == i,
                forall|k: int|
                    0 <= k < i ==> (#[trigger] cells@[k])@.len() == width && forall|j: int|
                        0 <= j < width ==> (cells@[k]@[j] == GolCell::Alive <==> alive_locs@.contains(
                            (k as usize, j as usize),
                        )),
        {
            let mut row: Vec<GolCell> = Vec::new();
            for j in 0..width
                invariant
                    row@.len() == j,
                    forall|jj: int|
                        0 <= jj < j ==> ((#[trigger] row@[jj]) == GolCell::Alive
                            <==> alive_locs@.contains((i, jj as usize))),
            {
                let cell = if list_contains(&alive_locs, i, j) {
                    GolCell::Alive
                } else {
                    GolCell::Dead
                };
                row.push(cell);
            }
            cells.push(row);
        }
        Ok(GolBoard { height, width, cells })
    }

    /// Returns `(height, width)`.
    pub fn dims(&self) -> (r: (usize, usize))
        ensures
            r.0 == self.spec_height(),
            r.1 == self.spec_width(),
    {
        (self.height, self.width)
    }

    /// The state of the cell at `(row, col)`. By convention a coordinate
    /// off the board reads as Dead, so this never fails.
    pub fn is_alive(&self, row: usize, col: usize) -> (r: bool)
        requires
            self.wf(),
        ensures
            r == self.alive(row as int, col as int),
    {
        row < self.height && col < self.width && self.cells[row][col].is_alive()
    }

    /// The coordinates of every Alive cell, each exactly once. The
    /// result is a finite snapshot with set semantics: no order is
    /// promised, and every entry lies on the board.
    pub fn alive_cells(&self) -> (r: Vec<(usize, usize)>)
        requires
            self.wf(),
        ensures
            r@.no_duplicates(),
            forall|p: (usize, usize)|
                #[trigger] r@.contains(p) <==> self.alive(p.0 as int, p.1 as int),
            forall|p: (usize, usize)|
                r@.contains(p) ==> self.in_bounds(p.0 as int, p.1 as int),
    {
        let mut r: Vec<(usize, usize)> = Vec::new();
        for i in 0..self.height
            invariant
                self.wf(),
                r@.no_duplicates(),
                forall|p: (usize, usize)|
                    #[trigger] r@.contains(p) <==> p.0 < i && self.alive(p.0 as int, p.1 as int),
        {
            for j in 0..self.width
                invariant
                    self.wf(),
                    i < self.spec_height(),
                    r@.no_duplicates(),
                    forall|p: (usize, usize)|
                        #[trigger] r@.contains(p) <==> (p.0 < i && self.alive(
                            p.0 as int,
                            p.1 as int,
                        )) || (p.0 == i && p.1 < j && self.alive(p.0 as int, p.1 as int)),
            {
                if self.is_alive(i, j) {
                    push_coord(&mut r, (i, j));
                }
            }
        }
        r
    }

    /// The Moore neighborhood of an on-board coordinate, restricted to
    /// the board: each of the up-to-8 adjacent positions that lies
    /// within bounds, each exactly once, in no promised order. Border
    /// cells get fewer than 8 entries; nothing wraps around.
    pub fn neighbor_indices(&self, row: usize, col: usize) -> (r: Vec<(usize, usize)>)
        requires
            row < self.spec_height(),
            col < self.spec_width(),
        ensures
            r@.no_duplicates(),
            forall|p: (usize, usize)|
                #[trigger] r@.contains(p) <==> is_moore_neighbor(
                    row as int,
                    col as int,
                    p.0 as int,
                    p.1 as int,
                ) && self.in_bounds(p.0 as int, p.1 as int),
    {
        let mut r: Vec<(usize, usize)> = Vec::new();
        if row > 0 && col > 0 {
            push_coord(&mut r, (row - 1, col - 1));
        }
        if row > 0 {
            push_coord(&mut r, (row - 1, col));
        }
        if row > 0 && col + 1 < self.width {
            push_coord(&mut r, (row - 1, col + 1));
        }
        if col > 0 {
            push_coord(&mut r, (row, col - 1));
        }
        if col + 1 < self.width {
            push_coord(&mut r, (row, col + 1));
        }
        if row + 1 < self.height && col > 0 {
            push_coord(&mut r, (row + 1, col - 1));
        }
        if row + 1 < self.height {
            push_coord(&mut r, (row + 1, col));
        }
        if row + 1 < self.height && col + 1 < self.width {
            push_coord(&mut r, (row + 1, col + 1));
        }
        r
    }

    /// The number of live Moore neighbors of an on-board coordinate,
    /// read from the current generation.
    fn count_neighbors(&self, row: usize, col: usize) -> (n: u8)
        requires
            self.wf(),
            row < self.spec_height(),
            col < self.spec_width(),
        ensures
            n as int == self.neighbor_count(row as int, col as int),
    {
        let mut n: u8 = 0;
        if row > 0 && col > 0 && self.is_alive(row - 1, col - 1) {
            n = n + 1;
        }
        if row > 0 && self.is_alive(row - 1, col) {
            n = n + 1;
        }
        if row > 0 && self.is_alive(row - 1, col + 1) {
            n = n + 1;
        }
        if col > 0 && self.is_alive(row, col - 1) {
            n = n + 1;
        }
        if self.is_alive(row, col + 1) {
            n = n + 1;
        }
        if row + 1 < self.height && col > 0 && self.is_alive(row + 1, col - 1) {
            n = n + 1;
        }
        if row + 1 < self.height && self.is_alive(row + 1, col) {
            n = n + 1;
        }
        if row + 1 < self.height && self.is_alive(row + 1, col + 1) {
            n = n + 1;
        }
        n
    }

    /// Advances the board one generation under the B3/S23 rule. Every
    /// neighbor count is read from the generation the call started
    /// from, and the whole grid is replaced at once, so the result does
    /// not depend on any traversal order. The dimensions never change,
    /// and the step always succeeds.
    pub fn process_step(&mut self)
        requires
            old(self).wf(),
        ensures
            final(self).wf(),
            final(self).spec_height() == old(self).spec_height(),
            final(self).spec_width() == old(self).spec_width(),
            forall|i: int, j: int| #[trigger] final(self).alive(i, j) == old(self).next_alive(i, j),
    {
        let mut next: Vec<Vec<GolCell>> = Vec::new();
        for i in 0..self.height
            invariant
                self.wf(),
                self == old(self),
                next@.len() == i,
                forall|k: int|
                    0 <= k < i ==> (#[trigger] next@[k])@.len() == self.spec_width() && forall|
                        j: int,
                    |
                        0 <= j < self.spec_width() ==> (next@[k]@[j] == GolCell::Alive
                            <==> self.next_alive(k, j)),
        {
            let mut row: Vec<GolCell> = Vec::new();
            for j in 0..self.width
                invariant
                    self.wf(),
                    self == old(self),
                    i < self.spec_height(),
                    row@.len() == j,
                    forall|jj: int|
                        0 <= jj < j ==> ((#[trigger] row@[jj]) == GolCell::Alive
                            <==> self.next_alive(i as int, jj)),
            {
                let n = self.count_neighbors(i, j);
                let lives = if self.is_alive(i, j) {
                    n == 2 || n == 3
                } else {
                    n == 3
                };
                row.push(
                    if lives {
                        GolCell::Alive
                    } else {
                        GolCell::Dead
                    },
                );
            }
            next.push(row);
        }
        self.cells = next;
    }
}

} // verus!
