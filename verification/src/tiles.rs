//! Coordinate generation: the ordered scan of a rectangular tile range.
//! The outer loop walks the x axis (descending when reversed), the inner
//! loop walks the full y axis ascending.

use vstd::prelude::*;
use vstd::arithmetic::div_mod::{
    lemma_fundamental_div_mod, lemma_fundamental_div_mod_converse, lemma_div_pos_is_pos,
    lemma_mod_bound,
};
use vstd::arithmetic::mul::lemma_mul_inequality;

verus! {

/// One cell of the map tiling scheme: grid position and zoom level.
#[derive(Clone, Copy, PartialEq, Eq, Structural, Debug)]
pub struct Tile {
    pub x: usize,
    pub y: usize,
    pub zoom: usize,
}

/// Number of columns of an inclusive x range.
pub open spec fn grid_width(min_x: int, max_x: int) -> int {
    max_x - min_x + 1
}

/// Number of rows of an inclusive y range.
pub open spec fn grid_height(min_y: int, max_y: int) -> int {
    max_y - min_y + 1
}

/// The coordinate emitted at column step `dx` and row step `dy`: the x axis
/// runs backwards from `max_x` when reversed, the y axis always ascends
/// from `min_y`.
pub open spec fn coord_at(
    min_x: int,
    max_x: int,
    min_y: int,
    reverse: bool,
    dx: int,
    dy: int,
) -> (int, int) {
    ((if reverse {
        max_x - dx
    } else {
        min_x + dx
    }), min_y + dy)
}

/// The full ordered coordinate sequence for a configured range.
pub open spec fn coord_seq(
    min_x: int,
    max_x: int,
    min_y: int,
    max_y: int,
    reverse: bool,
) -> Seq<(int, int)>
    recommends
        min_x <= max_x,
        min_y <= max_y,
{
    let h = grid_height(min_y, max_y);
    Seq::new(
        (grid_width(min_x, max_x) * h) as nat,
        |i: int| coord_at(min_x, max_x, min_y, reverse, i / h, i % h),
    )
}

/// A restartable cursor over the coordinate sequence of one configured
/// range. Pure value: two cursors built from the same range emit the same
/// sequence.
pub struct TileIterator {
    pub min_x: usize,
    pub max_x: usize,
    pub min_y: usize,
    pub max_y: usize,
    pub reverse: bool,
    pub dx: usize,
    pub dy: usize,
}

impl TileIterator {
    /// The configured range and direction, as one spec value.
    pub open spec fn cfg(self) -> (int, int, int, int, bool) {
        (self.min_x as int, self.max_x as int, self.min_y as int, self.max_y as int, self.reverse)
    }

    /// The coordinate sequence this cursor walks.
    pub open spec fn seq(self) -> Seq<(int, int)> {
        coord_seq(self.min_x as int, self.max_x as int, self.min_y as int, self.max_y as int, self.reverse)
    }

    /// How many coordinates have been emitted so far.
    pub open spec fn emitted(self) -> int {
        self.dx * grid_height(self.min_y as int, self.max_y as int) + self.dy
    }

    /// Cursor well-formedness: a valid range that fits the machine, and a
    /// position inside it (or one column past the end, with the row reset).
    pub open spec fn wf(self) -> bool {
        &&& self.min_x <= self.max_x
        &&& self.min_y <= self.max_y
        &&& self.max_x - self.min_x < usize::MAX
        &&& self.dy <= self.max_y - self.min_y
        &&& self.dx <= grid_width(self.min_x as int, self.max_x as int)
        &&& (self.dx == grid_width(self.min_x as int, self.max_x as int) ==> self.dy == 0)
    }

    /// Emit the next coordinate of the scan, or nothing once the whole
    /// rectangle has been covered.
    pub fn next(&mut self) -> (r: Option<(usize, usize)>)
        requires
            old(self).wf(),
        ensures
            final(self).wf(),
            final(self).cfg() == old(self).cfg(),
            match r {
                Some(p) => {
                    &&& old(self).emitted() < old(self).seq().len()
                    &&& (p.0 as int, p.1 as int) == old(self).seq()[old(self).emitted()]
                    &&& final(self).emitted() == old(self).emitted() + 1
                },
                None => {
                    &&& old(self).emitted() == old(self).seq().len()
                    &&& final(self).emitted() == old(self).emitted()
                },
            },
    {
        let ghost h = grid_height(self.min_y as int, self.max_y as int);
        let ghost w = grid_width(self.min_x as int, self.max_x as int);
        if self.dx > self.max_x - self.min_x {
            proof {
                assert(self.dx == w && self.dy == 0);
                assert(self.emitted() == w * h);
            }
            return None;
        }
        let x = if self.reverse {
            self.max_x - self.dx
        } else {
            self.min_x + self.dx
        };
        let y = self.min_y + self.dy;
        let ghost e = self.emitted();
        proof {
            assert(self.dx * h + self.dy < (self.dx + 1) * h) by (nonlinear_arith)
                requires
                    self.dy < h,
                    0 <= self.dx,
            ;
            assert((self.dx + 1) * h <= w * h) by (nonlinear_arith)
                requires
                    self.dx + 1 <= w,
                    0 < h,
            ;
            lemma_fundamental_div_mod_converse(e, h, self.dx as int, self.dy as int);
            assert(self.seq()[e] == coord_at(
                self.min_x as int, self.max_x as int, self.min_y as int, self.reverse,
                self.dx as int, self.dy as int,
            ));
        }
        if self.dy < self.max_y - self.min_y {
            self.dy = self.dy + 1;
        } else {
            self.dy = 0;
            self.dx = self.dx + 1;
            proof {
                assert((self.dx as int) * h == (self.dx - 1) * h + h) by (nonlinear_arith);
            }
        }
        Some((x, y))
    }
}

/// Begin the scan of a configured rectangle. Mirrors of the range bounds
/// are inclusive on both axes; a degenerate single-cell range still yields
/// its cell.
pub fn create_tile_iterator(
    min_x: usize,
    max_x: usize,
    min_y: usize,
    max_y: usize,
    reverse: bool,
) -> (it: TileIterator)
    requires
        min_x <= max_x,
        min_y <= max_y,
        max_x - min_x < usize::MAX,
    ensures
        it.wf(),
        it.cfg() == (min_x as int, max_x as int, min_y as int, max_y as int, reverse),
        it.emitted() == 0,
{
    TileIterator { min_x, max_x, min_y, max_y, reverse, dx: 0, dy: 0 }
}

/// The rectangle of coordinates a range describes, as a set.
pub open spec fn rect(min_x: int, max_x: int, min_y: int, max_y: int) -> Set<(int, int)> {
    Set::new(|p: (int, int)| min_x <= p.0 <= max_x && min_y <= p.1 <= max_y)
}

/// Law: the generated sequence covers the configured rectangle exactly.
/// Its set of coordinates equals the Cartesian product of the two inclusive
/// ranges, it has no duplicates, and its length is the rectangle's area —
/// in both scan directions.
pub proof fn lemma_coord_coverage(min_x: int, max_x: int, min_y: int, max_y: int, reverse: bool)
    requires
        min_x <= max_x,
        min_y <= max_y,
    ensures
        ({
            let s = coord_seq(min_x, max_x, min_y, max_y, reverse);
            &&& s.len() == (max_x - min_x + 1) * (max_y - min_y + 1)
            &&& s.to_set() == rect(min_x, max_x, min_y, max_y)
            &&& forall|i: int, j: int|
                0 <= i < j < s.len() ==> #[trigger] s[i] != #[trigger] s[j]
        }),
{
    let s = coord_seq(min_x, max_x, min_y, max_y, reverse);
    let w = grid_width(min_x, max_x);
    let h = grid_height(min_y, max_y);
    assert(w * h >= 1) by (nonlinear_arith)
        requires
            w >= 1,
            h >= 1,
    ;
    assert(s.len() == w * h);

    // Each emitted coordinate lies inside the rectangle.
    assert forall|i: int| 0 <= i < s.len() implies rect(min_x, max_x, min_y, max_y).contains(
        #[trigger] s[i],
    ) by {
        lemma_div_pos_is_pos(i, h);
        lemma_mod_bound(i, h);
        lemma_fundamental_div_mod(i, h);
        // i / h <= w - 1, else i >= w * h.
        if i / h > w - 1 {
            lemma_mul_inequality(w, i / h, h);
            assert(i == h * (i / h) + i % h);
            assert(false);
        }
    }

    // Each cell of the rectangle is emitted at its scan index.
    assert forall|p: (int, int)|
        rect(min_x, max_x, min_y, max_y).contains(p) implies s.to_set().contains(p) by {
        let dx = if reverse {
            max_x - p.0
        } else {
            p.0 - min_x
        };
        let dy = p.1 - min_y;
        let i = dx * h + dy;
        assert(dx * h + dy < w * h) by (nonlinear_arith)
            requires
                0 <= dx <= w - 1,
                0 <= dy < h,
        ;
        assert(dx * h >= 0) by (nonlinear_arith)
            requires
                dx >= 0,
                h >= 0,
        ;
        lemma_fundamental_div_mod_converse(i, h, dx, dy);
        assert(s[i] == p);
        assert(s.contains(p));
    }
    assert forall|p: (int, int)| s.to_set().contains(p) implies rect(
        min_x,
        max_x,
        min_y,
        max_y,
    ).contains(p) by {
        let i = choose|i: int| 0 <= i < s.len() && s[i] == p;
        assert(rect(min_x, max_x, min_y, max_y).contains(s[i]));
    }
    assert(s.to_set() =~= rect(min_x, max_x, min_y, max_y));

    // No coordinate repeats: distinct indices give distinct (dx, dy) pairs,
    // and the scan maps those to distinct coordinates.
    assert forall|i: int, j: int| 0 <= i < j < s.len() implies #[trigger] s[i] != #[trigger] s[j] by {
        lemma_fundamental_div_mod(i, h);
        lemma_fundamental_div_mod(j, h);
        lemma_mod_bound(i, h);
        lemma_mod_bound(j, h);
        if i / h == j / h && i % h == j % h {
            assert(false);
        }
    }
}

/// Law: reversing negates only the outer-axis order. At every position of
/// the scan the y coordinate is the same in both directions, and the x
/// coordinate is mirrored across the range.
pub proof fn lemma_reverse_x_only(min_x: int, max_x: int, min_y: int, max_y: int)
    requires
        min_x <= max_x,
        min_y <= max_y,
    ensures
        ({
            let fwd = coord_seq(min_x, max_x, min_y, max_y, false);
            let rev = coord_seq(min_x, max_x, min_y, max_y, true);
            &&& rev.len() == fwd.len()
            &&& forall|i: int|
                0 <= i < fwd.len() ==> (#[trigger] rev[i]).1 == (#[trigger] fwd[i]).1
                    && rev[i].0 == max_x + min_x - fwd[i].0
        }),
{
}

} // verus!
