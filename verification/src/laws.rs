use vstd::prelude::*;

use crate::board::GolBoard;

verus! {

/// An all-dead board is a fixed point: if no cell is Alive, no cell is
/// Alive in the next generation either, whatever the dimensions.
pub proof fn lemma_all_dead_stays_dead(b: GolBoard)
    requires
        forall|i: int, j: int| !b.alive(i, j),
    ensures
        forall|i: int, j: int| !b.next_alive(i, j),
{
    assert forall|i: int, j: int| !b.next_alive(i, j) by {
        assert(b.neighbor_count(i, j) == 0);
    }
}

/// A board without live cells enumerates nothing: a coordinate list
/// that stands to such a board as `alive_cells` ensures is empty. With
/// `new`'s contract this says a freshly built board enumerates no
/// cells, whatever its dimensions.
pub proof fn lemma_empty_board_enumerates_nothing(b: GolBoard, cs: Seq<(usize, usize)>)
    requires
        forall|i: int, j: int| !b.alive(i, j),
        forall|p: (usize, usize)| #[trigger] cs.contains(p) <==> b.alive(p.0 as int, p.1 as int),
    ensures
        cs.len() == 0,
{
    if cs.len() > 0 {
        assert(cs.contains(cs[0]));
    }
}

/// A lone live cell starves: on a board whose only Alive cell is
/// `(r, c)`, wherever that is, the next generation is entirely dead.
pub proof fn lemma_lone_cell_dies(b: GolBoard, r: int, c: int)
    requires
        forall|i: int, j: int| #[trigger] b.alive(i, j) <==> i == r && j == c,
    ensures
        forall|i: int, j: int| !b.next_alive(i, j),
{
    assert forall|i: int, j: int| !b.next_alive(i, j) by {
        assert(b.neighbor_count(i, j) <= 1);
    }
}

/// The birth rule: a Dead on-board cell with exactly 3 live Moore
/// neighbors is Alive in the next generation.
pub proof fn lemma_birth(b: GolBoard, r: int, c: int)
    requires
        b.in_bounds(r, c),
        !b.alive(r, c),
        b.neighbor_count(r, c) == 3,
    ensures
        b.next_alive(r, c),
{
}

/// A 2x2 block with a one-cell margin to every edge is a still life:
/// on a board whose Alive cells are exactly the block, the next
/// generation equals the current one everywhere.
pub proof fn lemma_block_still_life(b: GolBoard, r: int, c: int)
    requires
        1 <= r && r + 1 <= b.spec_height() - 2,
        1 <= c && c + 1 <= b.spec_width() - 2,
        forall|i: int, j: int| #[trigger] b.alive(i, j) <==> r <= i <= r + 1 && c <= j <= c + 1,
    ensures
        forall|i: int, j: int| b.next_alive(i, j) == b.alive(i, j),
{
    assert forall|i: int, j: int| b.next_alive(i, j) == b.alive(i, j) by {
        if r <= i <= r + 1 && c <= j <= c + 1 {
            assert(b.neighbor_count(i, j) == 3);
        } else {
            assert(b.neighbor_count(i, j) <= 2);
        }
    }
}

/// One step of the blinker: on a board whose Alive cells are exactly
/// the horizontal triple `(r, c-1)`, `(r, c)`, `(r, c+1)`, each at
/// least one cell from every edge, the next generation is exactly the
/// vertical triple `(r-1, c)`, `(r, c)`, `(r+1, c)`.
pub proof fn lemma_blinker_horizontal_step(b: GolBoard, r: int, c: int)
    requires
        1 <= r && r <= b.spec_height() - 2,
        2 <= c && c <= b.spec_width() - 3,
        forall|i: int, j: int| #[trigger] b.alive(i, j) <==> i == r && c - 1 <= j <= c + 1,
    ensures
        forall|i: int, j: int| #[trigger] b.next_alive(i, j) <==> j == c && r - 1 <= i <= r + 1,
{
    assert forall|i: int, j: int|
        #[trigger] b.next_alive(i, j) <==> j == c && r - 1 <= i <= r + 1 by {
        if i == r && j == c {
            assert(b.neighbor_count(i, j) == 2);
        } else if (i == r - 1 || i == r + 1) && j == c {
            assert(b.neighbor_count(i, j) == 3);
        } else if b.alive(i, j) {
            assert(b.neighbor_count(i, j) == 1);
        } else {
            assert(b.neighbor_count(i, j) <= 2);
        }
    }
}

/// The other half of the blinker's period: on a board whose Alive
/// cells are exactly the vertical triple `(r-1, c)`, `(r, c)`,
/// `(r+1, c)`, with the surrounding 3x3 box on the board, the next
/// generation is exactly the horizontal triple `(r, c-1)`, `(r, c)`,
/// `(r, c+1)`.
pub proof fn lemma_blinker_vertical_step(b: GolBoard, r: int, c: int)
    requires
        1 <= r && r <= b.spec_height() - 2,
        1 <= c && c <= b.spec_width() - 2,
        forall|i: int, j: int| #[trigger] b.alive(i, j) <==> j == c && r - 1 <= i <= r + 1,
    ensures
        forall|i: int, j: int| #[trigger] b.next_alive(i, j) <==> i == r && c - 1 <= j <= c + 1,
{
    assert forall|i: int, j: int|
        #[trigger] b.next_alive(i, j) <==> i == r && c - 1 <= j <= c + 1 by {
        if i == r && j == c {
            assert(b.neighbor_count(i, j) == 2);
        } else if i == r && (j == c - 1 || j == c + 1) {
            assert(b.neighbor_count(i, j) == 3);
        } else if b.alive(i, j) {
            assert(b.neighbor_count(i, j) == 1);
        } else {
            assert(b.neighbor_count(i, j) <= 2);
        }
    }
}

/// The blinker has period two: if `b1` is one generation after a
/// horizontal blinker `b0` and `b2` one generation after `b1` — the
/// relation `process_step` establishes — then `b1` is the vertical
/// blinker and `b2` is `b0` again.
pub proof fn lemma_blinker_period_two(b0: GolBoard, b1: GolBoard, b2: GolBoard, r: int, c: int)
    requires
        1 <= r && r <= b0.spec_height() - 2,
        2 <= c && c <= b0.spec_width() - 3,
        forall|i: int, j: int| #[trigger] b0.alive(i, j) <==> i == r && c - 1 <= j <= c + 1,
        b1.spec_height() == b0.spec_height(),
        b1.spec_width() == b0.spec_width(),
        forall|i: int, j: int| #[trigger] b1.alive(i, j) == b0.next_alive(i, j),
        b2.spec_height() == b1.spec_height(),
        b2.spec_width() == b1.spec_width(),
        forall|i: int, j: int| #[trigger] b2.alive(i, j) == b1.next_alive(i, j),
    ensures
        forall|i: int, j: int| #[trigger] b1.alive(i, j) <==> j == c && r - 1 <= i <= r + 1,
        forall|i: int, j: int| b2.alive(i, j) == b0.alive(i, j),
{
    lemma_blinker_horizontal_step(b0, r, c);
    assert forall|i: int, j: int|
        #[trigger] b1.alive(i, j) <==> j == c && r - 1 <= i <= r + 1 by {
        assert(b1.alive(i, j) == b0.next_alive(i, j));
    }
    lemma_blinker_vertical_step(b1, r, c);
    assert forall|i: int, j: int| b2.alive(i, j) == b0.alive(i, j) by {
        assert(b2.alive(i, j) == b1.next_alive(i, j));
        assert(b0.alive(i, j) <==> i == r && c - 1 <= j <= c + 1);
    }
}

/// The matrix round trip: when a board stands to a rectangular matrix
/// as `from_slice` ensures, and a coordinate list stands to that board
/// as `alive_cells` ensures, the list holds exactly the coordinates of
/// the matrix's nonzero entries.
pub proof fn lemma_matrix_round_trip(m: Seq<Seq<u8>>, b: GolBoard, cs: Seq<(usize, usize)>)
    requires
        forall|i: int|
            0 <= i < m.len() ==> (#[trigger] m[i]).len() == (if m.len() > 0 {
                m[0].len()
            } else {
                0
            }),
        b.spec_height() == m.len(),
        b.spec_width() == (if m.len() > 0 {
            m[0].len() as int
        } else {
            0
        }),
        forall|i: int, j: int|
            #[trigger] b.alive(i, j) <==> (0 <= i < m.len() && 0 <= j < b.spec_width() && j < m[i].len()
                && m[i][j] != 0),
        forall|p: (usize, usize)| #[trigger] cs.contains(p) <==> b.alive(p.0 as int, p.1 as int),
    ensures
        forall|p: (usize, usize)|
            #[trigger] cs.contains(p) <==> (p.0 < m.len() && p.1 < m[p.0 as int].len()
                && m[p.0 as int][p.1 as int] != 0),
{
    assert forall|p: (usize, usize)|
        #[trigger] cs.contains(p) <==> (p.0 < m.len() && p.1 < m[p.0 as int].len()
            && m[p.0 as int][p.1 as int] != 0) by {
        assert(cs.contains(p) <==> b.alive(p.0 as int, p.1 as int));
        if p.0 < m.len() {
            assert(m[p.0 as int].len() == b.spec_width());
        }
    }
}

} // verus!
