//! Sink-side logic: the database sink's per-write-batch retry budget, and
//! the file sink's line rendering. The writes themselves — the batched
//! insert and the file append — are performed by the embedding.

use vstd::prelude::*;

use crate::codec::strings_view;

verus! {

/// What the output stage reports when it fails.
#[derive(Clone, Copy, PartialEq, Eq, Structural, Debug)]
pub enum OutputError {
    ScyllaError,
    ChannelError,
    IoError,
}

/// Per-write-batch retry budget of the database sink: a failed batch
/// execution is retried up to the budget, then dropped and logged — never
/// fatal to the worker.
pub struct WriteRetry {
    pub retry_count: usize,
    pub max_retries: usize,
}

impl WriteRetry {
    /// A fresh budget for one write batch.
    pub fn new(max_retries: usize) -> (w: Self)
        ensures
            w.retry_count == 0,
            w.max_retries == max_retries,
    {
        WriteRetry { retry_count: 0, max_retries }
    }

    /// Settle one failed execution: retry while the budget lasts (counting
    /// the retry), otherwise give the batch up.
    pub fn should_retry(&mut self) -> (r: bool)
        ensures
            r == (old(self).retry_count < old(self).max_retries),
            final(self).max_retries == old(self).max_retries,
            final(self).retry_count == if r {
                old(self).retry_count + 1
            } else {
                old(self).retry_count as int
            },
    {
        if self.retry_count >= self.max_retries {
            false
        } else {
            self.retry_count = self.retry_count + 1;
            true
        }
    }
}

/// The file sink's rendering of identifiers: each one as one line.
pub open spec fn lines_of(ids: Seq<Seq<char>>) -> Seq<char>
    decreases ids.len(),
{
    if ids.len() == 0 {
        Seq::empty()
    } else {
        lines_of(ids.drop_last()) + ids.last() + seq!['\n']
    }
}

/// Render one identifier batch as the file sink stores it: one identifier
/// per line, no header, no trailing metadata.
pub fn encode_lines(ids: &Vec<String>) -> (r: String)
    ensures
        r@ == lines_of(strings_view(ids@)),
{
    proof {
        reveal_strlit("\n");
    }
    let ghost sv = strings_view(ids@);
    let mut result = String::new();
    let mut i: usize = 0;
    while i < ids.len()
        invariant
            sv == strings_view(ids@),
            sv.len() == ids@.len(),
            i <= ids@.len(),
            result@ == lines_of(sv.take(i as int)),
            "\n"@ == seq!['\n'],
        decreases ids@.len() - i,
    {
        let id = &ids[i];
        result.append(id.as_str());
        result.append("\n");
        proof {
            assert(sv.take(i + 1).drop_last() =~= sv.take(i as int));
            assert(sv.take(i + 1).last() == sv[i as int]);
            assert(result@ =~= lines_of(sv.take(i + 1)));
        }
        i = i + 1;
    }
    proof {
        assert(sv.take(ids@.len() as int) =~= sv);
    }
    result
}

} // verus!
