//! Batching: the generator groups coordinates into fixed-size tile batches
//! for the fetch queue, and each sink worker coalesces identifiers into
//! fixed-size write batches.

use vstd::prelude::*;
use vstd::arithmetic::div_mod::{lemma_fundamental_div_mod_converse, lemma_hoist_over_denominator};
use vstd::seq_lib::lemma_flatten_concat;

use crate::tiles::{Tile, TileIterator};

verus! {

/// A sequence split into consecutive batches of `b` elements, the last
/// batch possibly shorter.
pub open spec fn chunked<T>(s: Seq<T>, b: nat) -> Seq<Seq<T>>
    recommends
        b >= 1,
    decreases s.len(),
        when b >= 1
{
    if s.len() == 0 {
        Seq::empty()
    } else if s.len() <= b {
        seq![s]
    } else {
        seq![s.take(b as int)] + chunked(s.skip(b as int), b)
    }
}

/// Law: splitting a sequence of length L into batches of size B yields
/// ceil(L / B) batches, all of size B except possibly the last, which is
/// nonempty and no larger than B; concatenating the batches restores the
/// sequence, so nothing is lost, duplicated or reordered.
pub proof fn lemma_batching<T>(s: Seq<T>, b: nat)
    requires
        b >= 1,
    ensures
        ({
            let cs = chunked(s, b);
            &&& cs.len() == (s.len() + b - 1) as int / (b as int)
            &&& forall|i: int| 0 <= i < cs.len() - 1 ==> (#[trigger] cs[i]).len() == b
            &&& cs.len() > 0 ==> 0 < cs.last().len() <= b
            &&& cs.flatten() == s
        }),
    decreases s.len(),
{
    let cs = chunked(s, b);
    if s.len() == 0 {
        lemma_fundamental_div_mod_converse((b - 1) as int, b as int, 0, (b - 1) as int);
        assert(cs.flatten() =~= s);
    } else if s.len() <= b {
        lemma_fundamental_div_mod_converse(
            (s.len() + b - 1) as int,
            b as int,
            1,
            (s.len() - 1) as int,
        );
        assert(cs =~= seq![s]);
        cs.lemma_flatten_one_element();
        assert(cs.flatten() =~= s);
    } else {
        let head = seq![s.take(b as int)];
        let rest = chunked(s.skip(b as int), b);
        lemma_batching(s.skip(b as int), b);
        assert(rest.len() == (s.len() - b + b - 1) as int / (b as int));
        lemma_hoist_over_denominator((s.len() - 1) as int, 1, b);
        assert((s.len() - 1) as int + 1 * b == (s.len() + b - 1) as int);
        assert(cs.len() == (s.len() + b - 1) as int / (b as int));
        assert forall|i: int| 0 <= i < cs.len() - 1 implies (#[trigger] cs[i]).len() == b by {
            if i >= 1 {
                assert(cs[i] == rest[i - 1]);
            }
        }
        assert(cs.last() == rest.last());
        lemma_flatten_concat(head, rest);
        head.lemma_flatten_one_element();
        assert(cs.flatten() =~= s.take(b as int) + s.skip(b as int));
        assert(s.take(b as int) + s.skip(b as int) =~= s);
    }
}

/// Law: splitting is positional. The k-th batch of a split is exactly the
/// k-th contiguous slice of the sequence: elements keep their order and
/// their batch is determined by their position alone.
pub proof fn lemma_chunked_slice<T>(s: Seq<T>, b: nat, k: int)
    requires
        b >= 1,
        0 <= k < chunked(s, b).len(),
    ensures
        k * b < s.len(),
        chunked(s, b)[k] == s.subrange(
            k * b,
            if (k + 1) * b <= s.len() {
                (k + 1) * b
            } else {
                s.len() as int
            },
        ),
    decreases s.len(),
{
    let cs = chunked(s, b);
    if s.len() <= b {
        assert(k == 0);
        assert(k * b == 0) by (nonlinear_arith)
            requires
                k == 0,
        ;
        assert((k + 1) * b == b) by (nonlinear_arith)
            requires
                k == 0,
        ;
        assert(cs[0] == s);
        assert(s =~= s.subrange(0, s.len() as int));
    } else if k == 0 {
        assert(k * b == 0) by (nonlinear_arith)
            requires
                k == 0,
        ;
        assert((k + 1) * b == b) by (nonlinear_arith)
            requires
                k == 0,
        ;
        assert(cs[0] == s.take(b as int));
        assert(s.take(b as int) =~= s.subrange(0, b as int));
    } else {
        let rest = chunked(s.skip(b as int), b);
        assert(cs == seq![s.take(b as int)] + rest);
        assert(cs.len() == 1 + rest.len());
        assert(cs[k] == rest[k - 1]);
        lemma_chunked_slice(s.skip(b as int), b, k - 1);
        assert((k - 1) * b == k * b - b) by (nonlinear_arith);
        assert(k * b == (k + 1) * b - b) by (nonlinear_arith);
        let lo = (k - 1) * b;
        let hi = if k * b <= s.len() - b {
            k * b
        } else {
            s.len() - b
        };
        assert(lo < s.len() - b);
        assert(lo <= hi <= s.len() - b);
        assert(rest[k - 1] == s.skip(b as int).subrange(lo, hi));
        assert(s.skip(b as int).subrange(lo, hi) =~= s.subrange(lo + b, hi + b));
    }
}

/// Groups the coordinate scan into tile batches of a fixed size, attaching
/// the run's zoom level to every tile. The final partial batch is still
/// emitted; an exhausted scan yields nothing.
pub struct TileBatcher {
    pub iter: TileIterator,
    pub zoom: usize,
    pub batch_size: usize,
}

impl TileBatcher {
    /// Well-formed: a well-formed cursor and a positive batch size.
    pub open spec fn wf(self) -> bool {
        &&& self.iter.wf()
        &&& self.batch_size >= 1
    }

    /// Start batching a coordinate scan.
    pub fn new(iter: TileIterator, zoom: usize, batch_size: usize) -> (b: Self)
        requires
            iter.wf(),
            batch_size >= 1,
        ensures
            b.wf(),
            b.iter == iter,
            b.zoom == zoom,
            b.batch_size == batch_size,
    {
        TileBatcher { iter, zoom, batch_size }
    }

    /// Emit the next tile batch: the next `batch_size` coordinates of the
    /// scan (fewer at the end of the scan, and none once it is exhausted),
    /// each carrying the configured zoom.
    pub fn next_batch(&mut self) -> (r: Option<Vec<Tile>>)
        requires
            old(self).wf(),
        ensures
            final(self).wf(),
            final(self).zoom == old(self).zoom,
            final(self).batch_size == old(self).batch_size,
            final(self).iter.cfg() == old(self).iter.cfg(),
            ({
                let s = old(self).iter.seq();
                let e = old(self).iter.emitted();
                match r {
                    Some(batch) => {
                        &&& e < s.len()
                        &&& batch@.len() == if e + old(self).batch_size <= s.len() {
                            old(self).batch_size as int
                        } else {
                            s.len() - e
                        }
                        &&& final(self).iter.emitted() == e + batch@.len()
                        &&& forall|k: int|
                            0 <= k < batch@.len() ==> {
                                let t = #[trigger] batch@[k];
                                &&& (t.x as int, t.y as int) == s[e + k]
                                &&& t.zoom == old(self).zoom
                            }
                    },
                    None => {
                        &&& e == s.len()
                        &&& final(self).iter.emitted() == e
                    },
                }
            }),
    {
        proof {
            let h = crate::tiles::grid_height(self.iter.min_y as int, self.iter.max_y as int);
            let w = crate::tiles::grid_width(self.iter.min_x as int, self.iter.max_x as int);
            if self.iter.dx < w {
                assert(self.iter.dx * h + self.iter.dy <= w * h) by (nonlinear_arith)
                    requires
                        self.iter.dx <= w - 1,
                        0 <= self.iter.dy < h,
                ;
            }
        }
        let mut batch: Vec<Tile> = Vec::new();
        let mut exhausted = false;
        while batch.len() < self.batch_size && !exhausted
            invariant
                self.iter.wf(),
                self.batch_size == old(self).batch_size,
                self.batch_size >= 1,
                self.zoom == old(self).zoom,
                self.iter.cfg() == old(self).iter.cfg(),
                self.iter.seq() == old(self).iter.seq(),
                batch@.len() <= self.batch_size,
                self.iter.emitted() == old(self).iter.emitted() + batch@.len(),
                self.iter.emitted() <= self.iter.seq().len(),
                exhausted ==> self.iter.emitted() == self.iter.seq().len(),
                forall|k: int|
                    0 <= k < batch@.len() ==> {
                        let t = #[trigger] batch@[k];
                        &&& (t.x as int, t.y as int) == self.iter.seq()[old(self).iter.emitted()
                            + k]
                        &&& t.zoom == old(self).zoom
                    },
            decreases self.iter.seq().len() - self.iter.emitted() + (if exhausted {
                0int
            } else {
                1int
            }),
        {
            match self.iter.next() {
                Some(p) => {
                    batch.push(Tile { x: p.0, y: p.1, zoom: self.zoom });
                },
                None => {
                    exhausted = true;
                },
            }
        }
        if batch.len() == 0 {
            None
        } else {
            Some(batch)
        }
    }
}

/// Coalesces a stream of identifiers into write batches of a fixed
/// capacity, as a sink worker does before one multi-row insert.
pub struct WriteBatcher {
    pub buf: Vec<String>,
    pub capacity: usize,
}

impl WriteBatcher {
    /// Well-formed: a positive capacity never yet reached by the buffer.
    pub open spec fn wf(self) -> bool {
        &&& self.capacity >= 1
        &&& self.buf@.len() < self.capacity
    }

    /// An empty accumulator of the given capacity.
    pub fn new(capacity: usize) -> (w: Self)
        requires
            capacity >= 1,
        ensures
            w.wf(),
            w.capacity == capacity,
            w.buf@.len() == 0,
    {
        WriteBatcher { buf: Vec::new(), capacity }
    }

    /// Append one identifier. Exactly when the identifier fills the batch,
    /// the full batch is handed back and the accumulator restarts empty;
    /// otherwise the identifier is retained.
    pub fn push(&mut self, id: String) -> (r: Option<Vec<String>>)
        requires
            old(self).wf(),
        ensures
            final(self).wf(),
            final(self).capacity == old(self).capacity,
            match r {
                Some(full) => {
                    &&& old(self).buf@.len() + 1 == old(self).capacity
                    &&& full@ == old(self).buf@.push(id)
                    &&& final(self).buf@.len() == 0
                },
                None => {
                    &&& old(self).buf@.len() + 1 < old(self).capacity
                    &&& final(self).buf@ == old(self).buf@.push(id)
                },
            },
    {
        self.buf.push(id);
        if self.buf.len() == self.capacity {
            let mut full: Vec<String> = Vec::new();
            core::mem::swap(&mut full, &mut self.buf);
            Some(full)
        } else {
            None
        }
    }

    /// The final partial batch at end of stream: everything retained, or
    /// nothing if no identifier is pending.
    pub fn finish(self) -> (r: Option<Vec<String>>)
        ensures
            match r {
                Some(part) => part@ == self.buf@ && 0 < self.buf@.len(),
                None => self.buf@.len() == 0,
            },
    {
        if self.buf.len() == 0 {
            None
        } else {
            Some(self.buf)
        }
    }
}

} // verus!
