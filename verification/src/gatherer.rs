//! Network-path discovery completion detector. Candidate paths arrive
//! incrementally and an end-of-paths sentinel marks completion; the
//! describe-ready notification — the signal that the local descriptor may be
//! frozen and exported — must fire exactly once per connection, at the first
//! sentinel, however often the transport repeats the sentinel.

use vstd::prelude::*;

verus! {

/// One observation during network-path discovery: another candidate path,
/// or the end-of-paths sentinel that marks discovery as complete.
#[derive(Clone, Copy, Debug, PartialEq, Eq, Structural)]
pub enum PathEvent {
    Discovered,
    EndOfPaths,
}

/// Watches the discovery events of one connection and detects completion.
#[derive(Clone, Copy, Debug, PartialEq, Eq, Structural)]
pub struct PathGatherer {
    /// Whether the end-of-paths sentinel has been observed.
    pub complete: bool,
}

/// Whether an observation makes describe-ready fire: exactly the first
/// end-of-paths sentinel does.
pub open spec fn fires(g: PathGatherer, e: PathEvent) -> bool {
    e is EndOfPaths && !g.complete
}

/// The gatherer after an observation.
pub open spec fn observe_spec(g: PathGatherer, e: PathEvent) -> PathGatherer {
    PathGatherer { complete: g.complete || e is EndOfPaths }
}

impl PathGatherer {
    /// A gatherer for a fresh connection: no sentinel observed yet.
    pub fn new() -> (g: PathGatherer)
        ensures
            g == (PathGatherer { complete: false }),
    {
        PathGatherer { complete: false }
    }

    /// Observes one discovery event and reports whether describe-ready
    /// fires, which it does exactly at the first end-of-paths sentinel.
    pub fn observe(&mut self, e: PathEvent) -> (fire: bool)
        ensures
            *final(self) == observe_spec(*old(self), e),
            fire == fires(*old(self), e),
    {
        match e {
            PathEvent::Discovered => false,
            PathEvent::EndOfPaths => {
                let fire = !self.complete;
                self.complete = true;
                fire
            },
        }
    }
}

/// How often describe-ready fires when a gatherer observes a whole run of
/// discovery events in order.
pub open spec fn fire_count(g: PathGatherer, events: Seq<PathEvent>) -> nat
    decreases events.len(),
{
    if events.len() == 0 {
        0
    } else {
        (if fires(g, events[0]) {
            1nat
        } else {
            0nat
        }) + fire_count(observe_spec(g, events[0]), events.drop_first())
    }
}

/// Once the sentinel has been observed, describe-ready never fires again,
/// whatever else is observed.
proof fn lemma_no_fire_once_complete(events: Seq<PathEvent>)
    ensures
        fire_count(PathGatherer { complete: true }, events) == 0,
    decreases events.len(),
{
    if events.len() > 0 {
        assert(observe_spec(PathGatherer { complete: true }, events[0]) == (PathGatherer {
            complete: true,
        }));
        lemma_no_fire_once_complete(events.drop_first());
    }
}

/// Law: over any run of discovery events observed by a fresh connection's
/// gatherer, describe-ready fires exactly once if the run contains an
/// end-of-paths sentinel — even when the sentinel is observed several
/// times — and never fires if it does not.
pub proof fn lemma_describe_ready_fires_once(events: Seq<PathEvent>)
    ensures
        fire_count(PathGatherer { complete: false }, events) == (if exists|i: int|
            0 <= i < events.len() && events[i] is EndOfPaths {
            1nat
        } else {
            0nat
        }),
    decreases events.len(),
{
    let fresh = PathGatherer { complete: false };
    if events.len() == 0 {
    } else if events[0] is EndOfPaths {
        lemma_no_fire_once_complete(events.drop_first());
        assert(events[0] is EndOfPaths);
    } else {
        assert(observe_spec(fresh, events[0]) == fresh);
        lemma_describe_ready_fires_once(events.drop_first());
        let rest = events.drop_first();
        if exists|i: int| 0 <= i < events.len() && events[i] is EndOfPaths {
            let i = choose|i: int| 0 <= i < events.len() && events[i] is EndOfPaths;
            assert(i >= 1);
            assert(rest[i - 1] is EndOfPaths);
        }
        if exists|j: int| 0 <= j < rest.len() && rest[j] is EndOfPaths {
            let j = choose|j: int| 0 <= j < rest.len() && rest[j] is EndOfPaths;
            assert(events[j + 1] is EndOfPaths);
        }
    }
}

} // verus!
