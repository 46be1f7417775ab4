//! Properties of a whole service instance, stated once and proved from
//! the invariant that construction establishes and every operation keeps.

use vstd::prelude::*;
use crate::service::{span_conforms, Service};

verus! {

/// However many requests have been handled, the request counter equals
/// the number of contributions logged on the request-counter series, and
/// the counts those contributions observed are strictly increasing: no
/// two requests observe the same post-increment value.
pub proof fn lemma_request_count(s: Service)
    requires
        s.wf(),
    ensures
        s.metrics.observations@.len() == s.request_count,
        forall|i: int, j: int|
            0 <= i < j < s.metrics.observations@.len() ==> (#[trigger] s.metrics.observations@[i]).1
                < (#[trigger] s.metrics.observations@[j]).1,
{
    assert forall|i: int, j: int| 0 <= i < j < s.metrics.observations@.len() implies (
    #[trigger] s.metrics.observations@[i]).1 < (#[trigger] s.metrics.observations@[j]).1 by {
        assert(s.metrics.observations@[i] == (s.hello_series, (i + 1) as u64));
        assert(s.metrics.observations@[j] == (s.hello_series, (j + 1) as u64));
    }
}

/// Every span the service has produced, still buffered or already
/// exported, is named for the route, carries the method and route
/// attributes, and was closed with a success status.
pub proof fn lemma_spans_conform(s: Service)
    requires
        s.wf(),
    ensures
        forall|i: int|
            0 <= i < s.spans.buffered@.len() ==> span_conforms(#[trigger] s.spans.buffered@[i]),
        forall|i: int|
            0 <= i < s.spans.exported@.len() ==> span_conforms(#[trigger] s.spans.exported@[i]),
{
}

/// One coherent identity per process instance: the three pipelines carry
/// the service's resource identity, and every span and every log record,
/// buffered or exported, is stamped with that same identity.
pub proof fn lemma_shared_identity(s: Service)
    requires
        s.wf(),
    ensures
        s.spans.resource@ == s.identity@,
        s.metrics.resource@ == s.identity@,
        s.logs.resource@ == s.identity@,
        forall|i: int|
            0 <= i < s.spans.buffered@.len() ==> (#[trigger] s.spans.buffered@[i]).resource@
                == s.identity@,
        forall|i: int|
            0 <= i < s.spans.exported@.len() ==> (#[trigger] s.spans.exported@[i]).resource@
                == s.identity@,
        forall|i: int|
            0 <= i < s.logs.buffered@.len() ==> (#[trigger] s.logs.buffered@[i]).resource@
                == s.identity@,
        forall|i: int|
            0 <= i < s.logs.exported@.len() ==> (#[trigger] s.logs.exported@[i]).resource@
                == s.identity@,
{
}

} // verus!
