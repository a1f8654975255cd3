//! The fetch worker's per-batch decisions. The worker loop itself is run
//! by the embedding (it blocks on the queues and the HTTP exchange); what
//! it records and what it forwards is decided and accounted here.

use vstd::prelude::*;

use crate::status::{counter_bumped, CounterType, ProgramStatus};
use crate::tiles::Tile;

verus! {

/// Note the batch a fetch worker just dequeued: its first tile becomes the
/// last tile seen, for progress visibility. Write-order only — across
/// workers the record is intentionally approximate.
pub fn note_batch_start(tiles: &Vec<Tile>, status: &mut ProgramStatus)
    requires
        tiles@.len() > 0,
    ensures
        final(status).last_tile == tiles@[0],
        forall|c: CounterType| #[trigger] final(status).count(c) == old(status).count(c),
{
    status.update_last_tile(tiles[0]);
}

/// Settle one successful fetch at the worker: a non-empty identifier list
/// grows the found counter by its length and is forwarded to the sink
/// queue; an empty list is dropped silently, never forwarded.
pub fn forward_identifiers(ids: Vec<String>, status: &mut ProgramStatus) -> (r: Option<
    Vec<String>,
>)
    ensures
        ids@.len() == 0 ==> r is None && *final(status) == *old(status),
        ids@.len() > 0 ==> {
            &&& counter_bumped(*old(status), *final(status), CounterType::Found, ids@.len() as int)
            &&& r == Some(ids)
        },
{
    if ids.len() == 0 {
        None
    } else {
        status.increment_count(CounterType::Found, ids.len());
        Some(ids)
    }
}

} // verus!
