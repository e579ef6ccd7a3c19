use vstd::prelude::*;
use crate::events::Request;
use crate::sender::RequestSender;

verus! {

/// Uniqueness of correlation tokens: over a sender's whole lifetime, the
/// indices it has returned are exactly 0, 1, ..., N-1 in issuance order —
/// every index below the counter appears, and no index repeats.
pub proof fn lemma_issued_indices_unique<R: Request>(s: &RequestSender<R>)
    requires
        s.wf(),
    ensures
        s.issued_log().len() == s.issued_count(),
        forall|i: int| 0 <= i < s.issued_log().len() ==> s.issued_log()[i] == i,
        forall|i: int, j: int|
            0 <= i < s.issued_log().len() && 0 <= j < s.issued_log().len() && i != j
                ==> s.issued_log()[i] != s.issued_log()[j],
{
}

/// Which of two request types one send is addressed to, in a run that
/// interleaves sends of both types through their two separate counters.
pub enum Lane {
    First,
    Second,
}

/// How many of the sends in `trace` went to `lane`'s counter.
pub open spec fn sends_on(trace: Seq<Lane>, lane: Lane) -> nat
    decreases trace.len(),
{
    if trace.len() == 0 {
        0
    } else {
        sends_on(trace.drop_last(), lane) + if trace.last() == lane {
            1nat
        } else {
            0nat
        }
    }
}

/// The correlation indices returned for `lane`'s sends over the run `trace`,
/// in issuance order. Each send on a lane returns that lane's own count of
/// earlier sends and raises only that count by one — exactly what `send`
/// ensures of the one sender it is called on.
pub open spec fn indices_on(trace: Seq<Lane>, lane: Lane) -> Seq<nat>
    decreases trace.len(),
{
    if trace.len() == 0 {
        Seq::empty()
    } else if trace.last() == lane {
        indices_on(trace.drop_last(), lane).push(sends_on(trace.drop_last(), lane))
    } else {
        indices_on(trace.drop_last(), lane)
    }
}

/// Independence across request types: however sends of two request types are
/// interleaved, each type's counter hands out exactly 0, 1, ..., N-1 for its
/// own N sends — the other type's sends never perturb its sequence.
pub proof fn lemma_counters_independent(trace: Seq<Lane>, lane: Lane)
    ensures
        indices_on(trace, lane).len() == sends_on(trace, lane),
        forall|i: int| 0 <= i < indices_on(trace, lane).len()
            ==> indices_on(trace, lane)[i] == i,
    decreases trace.len(),
{
    if trace.len() > 0 {
        lemma_counters_independent(trace.drop_last(), lane);
    }
}

} // verus!
