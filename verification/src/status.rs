//! Metrics accounting: five monotonically increasing counters and the most
//! recently dequeued tile. One value of `ProgramStatus` is owned for the
//! process lifetime, written by every fetch worker and sampled by the
//! reporter; the embedding wraps it in whatever sharing it needs.

use vstd::prelude::*;

use crate::tiles::Tile;

verus! {

/// The five pipeline counters. Request, ratelimit and error are interval
/// counters, read and reset every reporting tick; found and failed are
/// cumulative, only ever read.
#[derive(Clone, Copy, Debug, PartialEq, Eq, Structural)]
pub enum CounterType {
    Request,
    Ratelimit,
    Error,
    Found,
    Failed,
}

/// Addition that stops at the machine limit, keeping counters monotonic.
pub open spec fn sat_add(a: int, n: int) -> int {
    if a + n <= usize::MAX {
        a + n
    } else {
        usize::MAX as int
    }
}

/// The pipeline's shared metrics.
pub struct ProgramStatus {
    pub request_count: usize,
    pub ratelimit_count: usize,
    pub error_count: usize,
    pub found_count: usize,
    pub failed_count: usize,
    pub last_tile: Tile,
}

/// One sample of the metrics: the three interval counters as read and
/// reset, the two cumulative counters and the last tile as read.
pub struct StatusMetrics {
    pub requests: usize,
    pub ratelimited: usize,
    pub errors: usize,
    pub found: usize,
    pub failed: usize,
    pub last_tile: Tile,
}

impl ProgramStatus {
    /// The value of one counter.
    pub open spec fn count(self, c: CounterType) -> int {
        match c {
            CounterType::Request => self.request_count as int,
            CounterType::Ratelimit => self.ratelimit_count as int,
            CounterType::Error => self.error_count as int,
            CounterType::Found => self.found_count as int,
            CounterType::Failed => self.failed_count as int,
        }
    }

    /// Fresh metrics: every counter zero, the placeholder origin tile.
    pub fn new() -> (s: Self)
        ensures
            forall|c: CounterType| s.count(c) == 0,
            s.last_tile == (Tile { x: 0, y: 0, zoom: 0 }),
    {
        ProgramStatus {
            request_count: 0,
            ratelimit_count: 0,
            error_count: 0,
            found_count: 0,
            failed_count: 0,
            last_tile: Tile { x: 0, y: 0, zoom: 0 },
        }
    }

    /// Grow one counter by one; every other counter and the last tile keep
    /// their values.
    pub fn increment(&mut self, counter: CounterType)
        ensures
            counter_bumped(*old(self), *final(self), counter, 1),
    {
        self.increment_count(counter, 1)
    }

    /// Grow one counter by an amount; every other counter and the last
    /// tile keep their values.
    pub fn increment_count(&mut self, counter: CounterType, count: usize)
        ensures
            counter_bumped(*old(self), *final(self), counter, count as int),
    {
        match counter {
            CounterType::Request => {
                self.request_count = self.request_count.saturating_add(count);
            },
            CounterType::Ratelimit => {
                self.ratelimit_count = self.ratelimit_count.saturating_add(count);
            },
            CounterType::Error => {
                self.error_count = self.error_count.saturating_add(count);
            },
            CounterType::Found => {
                self.found_count = self.found_count.saturating_add(count);
            },
            CounterType::Failed => {
                self.failed_count = self.failed_count.saturating_add(count);
            },
        }
    }

    /// Replace the last tile seen; the counters keep their values.
    pub fn update_last_tile(&mut self, input: Tile)
        ensures
            final(self).last_tile == input,
            forall|c: CounterType| final(self).count(c) == old(self).count(c),
    {
        self.last_tile = input;
    }

    /// Read and reset one interval counter. Only the three interval
    /// counters may be reset; the cumulative ones never are.
    pub fn get_and_reset(&mut self, counter: CounterType) -> (r: usize)
        requires
            counter is Request || counter is Ratelimit || counter is Error,
        ensures
            r == old(self).count(counter),
            final(self).count(counter) == 0,
            forall|c: CounterType| c != counter ==> final(self).count(c) == old(self).count(c),
            final(self).last_tile == old(self).last_tile,
    {
        match counter {
            CounterType::Request => {
                let r = self.request_count;
                self.request_count = 0;
                r
            },
            CounterType::Ratelimit => {
                let r = self.ratelimit_count;
                self.ratelimit_count = 0;
                r
            },
            _ => {
                let r = self.error_count;
                self.error_count = 0;
                r
            },
        }
    }

    /// Read one cumulative counter, without resetting anything.
    pub fn get(&self, counter: CounterType) -> (r: usize)
        requires
            counter is Found || counter is Failed,
        ensures
            r == self.count(counter),
    {
        match counter {
            CounterType::Found => self.found_count,
            _ => self.failed_count,
        }
    }

    /// The most recently recorded tile.
    pub fn get_last_input(&self) -> (t: Tile)
        ensures
            t == self.last_tile,
    {
        self.last_tile
    }

    /// One reporter sample: the three interval counters are read and
    /// reset, the cumulative counters and the last tile read untouched.
    pub fn get_metrics(&mut self) -> (m: StatusMetrics)
        ensures
            m.requests == old(self).count(CounterType::Request),
            m.ratelimited == old(self).count(CounterType::Ratelimit),
            m.errors == old(self).count(CounterType::Error),
            m.found == old(self).count(CounterType::Found),
            m.failed == old(self).count(CounterType::Failed),
            m.last_tile == old(self).last_tile,
            final(self).count(CounterType::Request) == 0,
            final(self).count(CounterType::Ratelimit) == 0,
            final(self).count(CounterType::Error) == 0,
            final(self).count(CounterType::Found) == old(self).count(CounterType::Found),
            final(self).count(CounterType::Failed) == old(self).count(CounterType::Failed),
            final(self).last_tile == old(self).last_tile,
    {
        let requests = self.get_and_reset(CounterType::Request);
        let ratelimited = self.get_and_reset(CounterType::Ratelimit);
        let errors = self.get_and_reset(CounterType::Error);
        let found = self.get(CounterType::Found);
        let failed = self.get(CounterType::Failed);
        let last_tile = self.get_last_input();
        StatusMetrics { requests, ratelimited, errors, found, failed, last_tile }
    }
}

/// The counters of `b` are those of `a`, except `c`, which grew by `n`
/// (stopping at the machine limit); the last tile is unchanged.
pub open spec fn counter_bumped(a: ProgramStatus, b: ProgramStatus, c: CounterType, n: int) -> bool {
    &&& b.count(c) == sat_add(a.count(c), n)
    &&& forall|k: CounterType| k != c ==> #[trigger] b.count(k) == a.count(k)
    &&& b.last_tile == a.last_tile
}

} // verus!
