//! What the broadcaster reports once an envelope has gone out to every peer.

use vstd::prelude::*;

verus! {

/// Some peers could not be reached. The others were.
#[derive(Debug, PartialEq, Eq)]
pub struct PartialBroadcastFailure {
    /// The positions of the peers that the envelope did not reach, in rising
    /// order.
    pub failed: Vec<usize>,
}

/// The positions at which `delivered` is false, in rising order.
pub open spec fn failures(delivered: Seq<bool>) -> Seq<usize>
    decreases delivered.len(),
{
    if delivered.len() == 0 {
        Seq::empty()
    } else if delivered.last() {
        failures(delivered.drop_last())
    } else {
        failures(delivered.drop_last()).push((delivered.len() - 1) as usize)
    }
}

/// Sums up one broadcast. `delivered` holds, peer by peer, whether the send to
/// that peer succeeded; every peer was tried. The broadcast failed in part
/// where a send failed, and the failure names each such peer.
pub fn broadcast_outcome(delivered: &Vec<bool>) -> (r: Result<(), PartialBroadcastFailure>)
    ensures
        r is Ok <==> failures(delivered@).len() == 0,
        r matches Err(failure) ==> failure.failed@ == failures(delivered@),
{
    let mut failed: Vec<usize> = Vec::new();
    let mut i: usize = 0;
    assert(delivered@.take(0) =~= Seq::empty());
    while i < delivered.len()
        invariant
            i <= delivered.len(),
            failed@ == failures(delivered@.take(i as int)),
        decreases delivered.len() - i,
    {
        let ghost next = delivered@.take(i + 1);
        assert(next.drop_last() =~= delivered@.take(i as int));
        assert(next.last() == delivered@[i as int]);
        if !delivered[i] {
            failed.push(i);
        }
        i = i + 1;
    }
    assert(delivered@.take(i as int) =~= delivered@);
    if failed.len() == 0 {
        Ok(())
    } else {
        Err(PartialBroadcastFailure { failed })
    }
}

/// The failure names exactly the peers that were not reached.
pub proof fn lemma_failures_are_the_unreached(delivered: Seq<bool>, peer: int)
    requires
        0 <= peer < delivered.len(),
        delivered.len() <= usize::MAX,
    ensures
        failures(delivered).contains(peer as usize) <==> !delivered[peer],
    decreases delivered.len(),
{
    let rest = delivered.drop_last();
    let last = (delivered.len() - 1) as usize;
    if peer < rest.len() {
        lemma_failures_are_the_unreached(rest, peer);
        lemma_failures_below(rest);
        if !delivered.last() {
            let all = failures(rest).push(last);
            if failures(rest).contains(peer as usize) {
                let k = choose|k: int| 0 <= k < failures(rest).len() && failures(rest)[k] == peer as usize;
                assert(all[k] == peer as usize);
            }
        }
    } else {
        lemma_failures_below(rest);
        if !delivered.last() {
            let all = failures(rest).push(last);
            assert(all[all.len() - 1] == last);
        }
    }
}

/// Every position that `failures` names lies within the list.
proof fn lemma_failures_below(delivered: Seq<bool>)
    requires
        delivered.len() <= usize::MAX,
    ensures
        forall|k: int|
            0 <= k < failures(delivered).len() ==> (#[trigger] failures(delivered)[k])
                < delivered.len(),
    decreases delivered.len(),
{
    if delivered.len() > 0 {
        let rest = delivered.drop_last();
        lemma_failures_below(rest);
        assert forall|k: int| 0 <= k < failures(delivered).len() implies (#[trigger] failures(
            delivered,
        )[k]) < delivered.len() by {
            if k < failures(rest).len() {
                assert(failures(delivered)[k] == failures(rest)[k]);
            }
        }
    }
}

} // verus!
