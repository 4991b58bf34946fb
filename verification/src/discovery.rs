//! Device discovery: the wait on the discovery source is bounded by a total
//! budget whose remainder shrinks on every iteration, and of the events the
//! source yields only the resolved services become candidates, in arrival
//! order.

use vstd::prelude::*;
use crate::device::DeviceRecord;

verus! {

/// Discovery could not start at all: the network subsystem is unusable. This
/// is fatal to the whole operation; an empty candidate list is not.
#[derive(Clone, Copy, Debug, PartialEq, Eq)]
pub enum DiscoveryError {
    DiscoveryUnavailable,
}

/// One event from the discovery source: a service resolved to a record, or
/// anything else (found but not yet resolved, removed, and the like).
pub enum DiscoveryEvent {
    Resolved(DeviceRecord),
    Other,
}

/// The records of the resolved events, in arrival order.
pub open spec fn resolved_of(es: Seq<DiscoveryEvent>) -> Seq<DeviceRecord>
    decreases es.len(),
{
    if es.len() == 0 {
        Seq::empty()
    } else {
        match es.last() {
            DiscoveryEvent::Resolved(d) => resolved_of(es.drop_last()).push(d),
            DiscoveryEvent::Other => resolved_of(es.drop_last()),
        }
    }
}

/// What is left of the discovery budget: the wait goes on exactly while some
/// of the total remains, and each wait is bounded by the remainder, never by
/// a fixed per-iteration timeout.
pub fn remaining_budget(total_ms: u64, elapsed_ms: u64) -> (r: u64)
    ensures
        r == if elapsed_ms < total_ms {
            total_ms - elapsed_ms
        } else {
            0
        },
{
    if elapsed_ms < total_ms {
        total_ms - elapsed_ms
    } else {
        0
    }
}

/// Keep the resolved services of one discovery round, in arrival order,
/// dropping every other event. An empty result is not an error here; the
/// caller decides.
pub fn collect_resolved(events: Vec<DiscoveryEvent>) -> (r: Vec<DeviceRecord>)
    ensures
        r@ == resolved_of(events@),
{
    let mut out: Vec<DeviceRecord> = Vec::new();
    let n = events.len();
    let ghost all = events@;
    let mut rest = events;
    let mut i: usize = 0;
    while i < n
        invariant
            i <= n,
            n == all.len(),
            rest@ =~= all.skip(i as int),
            out@ == resolved_of(all.take(i as int)),
        decreases n - i,
    {
        proof {
            assert(all.take(i + 1).drop_last() =~= all.take(i as int));
            assert(all.take(i + 1).last() == all[i as int]);
            assert(rest@[0] == all[i as int]);
        }
        let ev = rest.remove(0);
        match ev {
            DiscoveryEvent::Resolved(d) => out.push(d),
            DiscoveryEvent::Other => (),
        }
        i = i + 1;
    }
    proof {
        assert(all.take(n as int) =~= all);
    }
    out
}

} // verus!
