//! Capability matching: the operation-subset test and first-match selection.

use crate::model::{endpoint_views, EndpointInfo, EndpointInfoView};
use vstd::prelude::*;

verus! {

/// Every operation name of `required` occurs somewhere in `available`.
/// Order and repetition play no part.
pub open spec fn covers(available: Seq<Seq<char>>, required: Seq<Seq<char>>) -> bool {
    forall|i: int| 0 <= i < required.len() ==> available.contains(#[trigger] required[i])
}

/// Does `superset` hold the string `member`?
fn has_member(superset: &[String], member: &String) -> (found: bool)
    ensures
        found == superset.deep_view().contains(member@),
{
    let mut j: usize = 0;
    while j < superset.len()
        invariant
            j <= superset.len(),
            forall|k: int| 0 <= k < j ==> superset.deep_view()[k] != member@,
        decreases superset.len() - j,
    {
        if superset[j] == *member {
            assert(superset.deep_view()[j as int] == member@);
            return true;
        }
        j += 1;
    }
    false
}

/// Is the provided subset a subset of the provided superset?
///
/// Members are compared by exact string equality; the test does not depend on
/// order and tolerates repeated members on either side.
pub fn is_subset(subset: &[String], superset: &[String]) -> (result: bool)
    ensures
        result == covers(superset.deep_view(), subset.deep_view()),
{
    let mut i: usize = 0;
    while i < subset.len()
        invariant
            i <= subset.len(),
            forall|k: int|
                0 <= k < i ==> superset.deep_view().contains(#[trigger] subset.deep_view()[k]),
        decreases subset.len() - i,
    {
        assert(subset.deep_view()[i as int] == subset[i as int]@);
        if !has_member(superset, &subset[i]) {
            return false;
        }
        i += 1;
    }
    true
}

/// Nothing is required: every set of operations covers that.
pub proof fn lemma_empty_is_subset_of_all(available: Seq<Seq<char>>)
    ensures
        covers(available, Seq::<Seq<char>>::empty()),
{
}

/// Nothing is available: only the empty requirement is covered.
pub proof fn lemma_only_empty_is_subset_of_empty(required: Seq<Seq<char>>)
    ensures
        covers(Seq::<Seq<char>>::empty(), required) <==> required.len() == 0,
{
    if required.len() > 0 {
        assert(!Seq::<Seq<char>>::empty().contains(required[0]));
    }
}

/// An endpoint qualifies when it speaks exactly the required protocol and
/// offers every required operation.
pub open spec fn qualifies(
    endpoint: EndpointInfoView,
    protocol: Seq<char>,
    operations: Seq<Seq<char>>,
) -> bool {
    endpoint.protocol == protocol && covers(endpoint.operations, operations)
}

/// The position of the first endpoint, in list order, that qualifies.
pub open spec fn first_match(
    endpoints: Seq<EndpointInfoView>,
    protocol: Seq<char>,
    operations: Seq<Seq<char>>,
) -> Option<int>
    decreases endpoints.len(),
{
    if endpoints.len() == 0 {
        None
    } else if qualifies(endpoints[0], protocol, operations) {
        Some(0int)
    } else {
        match first_match(endpoints.skip(1), protocol, operations) {
            Some(at) => Some(at + 1),
            None => None,
        }
    }
}

/// The first match qualifies and nothing before it does; where there is no
/// match, no endpoint of the list qualifies.
pub proof fn lemma_first_match_wins(
    endpoints: Seq<EndpointInfoView>,
    protocol: Seq<char>,
    operations: Seq<Seq<char>>,
)
    ensures
        match first_match(endpoints, protocol, operations) {
            Some(at) => 0 <= at < endpoints.len() && qualifies(endpoints[at], protocol, operations)
                && forall|j: int|
                0 <= j < at ==> !qualifies(#[trigger] endpoints[j], protocol, operations),
            None => forall|j: int|
                0 <= j < endpoints.len() ==> !qualifies(
                    #[trigger] endpoints[j],
                    protocol,
                    operations,
                ),
        },
    decreases endpoints.len(),
{
    if endpoints.len() > 0 && !qualifies(endpoints[0], protocol, operations) {
        let rest = endpoints.skip(1);
        lemma_first_match_wins(rest, protocol, operations);
        assert forall|j: int| 0 < j < endpoints.len() implies rest[j - 1] == endpoints[j] by {}
        match first_match(rest, protocol, operations) {
            Some(at) => {
                assert forall|j: int| 0 <= j < at + 1 implies !qualifies(
                    #[trigger] endpoints[j],
                    protocol,
                    operations,
                ) by {
                    if j > 0 {
                        assert(rest[j - 1] == endpoints[j]);
                    }
                }
            },
            None => {
                assert forall|j: int| 0 <= j < endpoints.len() implies !qualifies(
                    #[trigger] endpoints[j],
                    protocol,
                    operations,
                ) by {
                    if j > 0 {
                        assert(rest[j - 1] == endpoints[j]);
                    }
                }
            },
        }
    }
}

/// An endpoint that qualifies, with none before it that does, is the first
/// match, whatever comes after it.
pub proof fn lemma_earliest_qualifying_is_first_match(
    endpoints: Seq<EndpointInfoView>,
    protocol: Seq<char>,
    operations: Seq<Seq<char>>,
    at: int,
)
    requires
        0 <= at < endpoints.len(),
        qualifies(endpoints[at], protocol, operations),
        forall|j: int| 0 <= j < at ==> !qualifies(#[trigger] endpoints[j], protocol, operations),
    ensures
        first_match(endpoints, protocol, operations) == Some(at),
{
    lemma_first_match_wins(endpoints, protocol, operations);
}

/// Finds the first endpoint, in list order, that speaks `protocol` and offers
/// every one of `operations`. A later endpoint that would qualify too is
/// never chosen.
pub fn find_endpoint(endpoints: &Vec<EndpointInfo>, protocol: &str, operations: &[String]) -> (found:
    Option<usize>)
    ensures
        match found {
            Some(at) => first_match(
                endpoint_views(endpoints@),
                protocol@,
                operations.deep_view(),
            ) == Some(at as int),
            None => first_match(endpoint_views(endpoints@), protocol@, operations.deep_view())
                is None,
        },
{
    let wanted = protocol.to_owned();
    let ghost views = endpoint_views(endpoints@);
    let mut at: usize = 0;
    while at < endpoints.len()
        invariant
            at <= endpoints.len(),
            wanted@ == protocol@,
            views == endpoint_views(endpoints@),
            forall|j: int|
                0 <= j < at ==> !qualifies(#[trigger] views[j], protocol@, operations.deep_view()),
        decreases endpoints.len() - at,
    {
        let endpoint = &endpoints[at];
        assert(views[at as int] == endpoint@);
        let offered = endpoint.operations.as_slice();
        assert(offered.deep_view() =~= endpoint.operations.deep_view());
        if endpoint.protocol == wanted && is_subset(operations, offered) {
            proof {
                assert(qualifies(views[at as int], protocol@, operations.deep_view()));
                lemma_first_match_wins(views, protocol@, operations.deep_view());
            }
            return Some(at);
        }
        at += 1;
    }
    proof {
        lemma_first_match_wins(views, protocol@, operations.deep_view());
    }
    None
}

} // verus!
