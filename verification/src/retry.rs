//! Retry policy for one tile-batch fetch: a bounded number of attempts
//! with fixed backoff between them, differentiated counter accounting per
//! failure kind, and a single terminal error once the budget is exhausted.
//! The embedding drives the loop (it performs the HTTP exchange and the
//! sleep); every decision and every counter effect is made here.

use vstd::prelude::*;

use crate::codec::FetchTilesError;
use crate::status::{counter_bumped, CounterType, ProgramStatus};

verus! {

/// What a pipeline worker reports when it fails.
#[derive(Clone, Copy, PartialEq, Eq, Structural, Debug)]
pub enum WorkerError {
    ChannelSendErrorString,
    ChannelSendErrorUser,
    ReceiveError,
    MaxRetriesExceeded,
    IoError,
}

/// Bounded-retry bookkeeping for one tile batch.
pub struct RetryPolicy {
    pub max_retries: usize,
    pub attempts: usize,
}

impl RetryPolicy {
    /// A positive budget never exceeded by the attempts made.
    pub open spec fn wf(self) -> bool {
        &&& 1 <= self.max_retries
        &&& self.attempts <= self.max_retries
    }

    /// A fresh policy for one batch: no attempt made yet.
    pub fn new(max_retries: usize) -> (p: Self)
        requires
            max_retries >= 1,
        ensures
            p.wf(),
            p.max_retries == max_retries,
            p.attempts == 0,
    {
        RetryPolicy { max_retries, attempts: 0 }
    }

    /// Whether another attempt may begin: attempts never exceed the budget.
    pub fn can_attempt(&self) -> (r: bool)
        ensures
            r == (self.attempts < self.max_retries),
    {
        self.attempts < self.max_retries
    }

    /// Begin one attempt: it is counted against the budget, and the
    /// request counter grows by one — before every attempt, whatever the
    /// outcome and whatever the batch holds.
    pub fn begin_attempt(&mut self, status: &mut ProgramStatus)
        requires
            old(self).wf(),
            old(self).attempts < old(self).max_retries,
        ensures
            final(self).wf(),
            final(self).max_retries == old(self).max_retries,
            final(self).attempts == old(self).attempts + 1,
            counter_bumped(*old(status), *final(status), CounterType::Request, 1),
    {
        self.attempts = self.attempts + 1;
        status.increment(CounterType::Request);
    }

    /// Record one failed attempt. An unexpected status code is a
    /// rate-limit signal from the endpoint: the worker sleeps and retries,
    /// and the error counter is untouched. Any other failure grows the
    /// error counter by one.
    pub fn record_failure(&self, err: &FetchTilesError, status: &mut ProgramStatus)
        ensures
            match err {
                FetchTilesError::UnexpectedStatusCode(_) => *final(status) == *old(status),
                _ => counter_bumped(*old(status), *final(status), CounterType::Error, 1),
            },
    {
        match err {
            FetchTilesError::UnexpectedStatusCode(_) => {},
            _ => {
                status.increment(CounterType::Error);
            },
        }
    }

    /// Give up after the budget is spent: the failed counter grows by one
    /// and the terminal error is returned — this batch's identifiers are
    /// permanently lost.
    pub fn give_up(&self, status: &mut ProgramStatus) -> (e: WorkerError)
        requires
            self.attempts == self.max_retries,
        ensures
            counter_bumped(*old(status), *final(status), CounterType::Failed, 1),
            e == WorkerError::MaxRetriesExceeded,
    {
        status.increment(CounterType::Failed);
        WorkerError::MaxRetriesExceeded
    }
}

} // verus!
