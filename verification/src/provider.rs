//! Capability-matching resolution: from what the directory answered to the
//! one endpoint that meets the caller's requirements.

use crate::address::{get_uri, normalized};
use crate::matching::{find_endpoint, first_match, lemma_first_match_wins, qualifies};
use crate::messages::{
    entity_missing_message,
    entity_missing_text,
    no_endpoint_message,
    no_endpoint_text,
    normalization_failed_message,
    normalization_failed_text,
};
use crate::matching::covers;
use crate::model::{
    endpoint_outcome,
    AddressMode,
    AddressModeView,
    DirectoryReply,
    DirectoryReplyView,
    DiscoveryError,
    DiscoveryErrorView,
    EndpointInfo,
    EndpointInfoView,
    ErrorKind,
};
use vstd::prelude::*;

verus! {

/// What selection makes of the endpoints that the directory listed: the first
/// that qualifies, its address normalized under `mode`.
pub open spec fn selection(
    endpoints: Seq<EndpointInfoView>,
    entity_id: Seq<char>,
    protocol: Seq<char>,
    operations: Seq<Seq<char>>,
    mode: AddressModeView,
) -> Result<EndpointInfoView, DiscoveryErrorView> {
    match first_match(endpoints, protocol, operations) {
        None => Err(
            DiscoveryErrorView {
                kind: ErrorKind::NoMatchingEndpoint,
                message: no_endpoint_text(entity_id, protocol, operations),
            },
        ),
        Some(at) => match normalized(endpoints[at].uri, mode) {
            Ok(uri) => Ok(
                EndpointInfoView {
                    uri,
                    protocol: endpoints[at].protocol,
                    operations: endpoints[at].operations,
                },
            ),
            Err(cause) => Err(
                DiscoveryErrorView {
                    kind: cause.kind,
                    message: normalization_failed_text(cause.message),
                },
            ),
        },
    }
}

/// What provider resolution makes of `reply`.
pub open spec fn provider_resolution(
    reply: DirectoryReplyView,
    entity_id: Seq<char>,
    protocol: Seq<char>,
    operations: Seq<Seq<char>>,
    mode: AddressModeView,
) -> Result<EndpointInfoView, DiscoveryErrorView> {
    match reply {
        DirectoryReplyView::ConnectionFailed(cause) => Err(
            DiscoveryErrorView { kind: ErrorKind::ConnectionFailure, message: cause },
        ),
        DirectoryReplyView::CallFailed(cause) => Err(
            DiscoveryErrorView { kind: ErrorKind::CallFailure, message: cause },
        ),
        DirectoryReplyView::Answered(None) => Err(
            DiscoveryErrorView {
                kind: ErrorKind::EntityNotFound,
                message: entity_missing_text(entity_id),
            },
        ),
        DirectoryReplyView::Answered(Some(endpoints)) => selection(
            endpoints,
            entity_id,
            protocol,
            operations,
            mode,
        ),
    }
}

/// Uses what the digital twin directory answered to discover the endpoint of
/// a provider that satisfies the requirements.
///
/// A failed connection or call is handed on with the transport's text. An
/// answer without access information is "entity not found". Otherwise the
/// first endpoint in list order that speaks `protocol` and offers every one of
/// `operations` is returned, its URI normalized under `mode`; where none
/// qualifies, or the URI cannot be normalized, the call fails.
pub fn discover_digital_twin_provider_using_ibeji(
    reply: DirectoryReply,
    entity_id: &str,
    protocol: &str,
    operations: &[String],
    mode: &AddressMode,
) -> (result: Result<EndpointInfo, DiscoveryError>)
    ensures
        endpoint_outcome(result) == provider_resolution(
            reply@,
            entity_id@,
            protocol@,
            operations.deep_view(),
            mode@,
        ),
{
    match reply {
        DirectoryReply::ConnectionFailed(cause) => Err(
            DiscoveryError { kind: ErrorKind::ConnectionFailure, message: cause },
        ),
        DirectoryReply::CallFailed(cause) => Err(
            DiscoveryError { kind: ErrorKind::CallFailure, message: cause },
        ),
        DirectoryReply::Answered(None) => Err(
            DiscoveryError {
                kind: ErrorKind::EntityNotFound,
                message: entity_missing_message(entity_id),
            },
        ),
        DirectoryReply::Answered(Some(info)) => {
            let ghost listed = info@;
            let mut endpoints = info.endpoint_info_list;
            match find_endpoint(&endpoints, protocol, operations) {
                None => Err(
                    DiscoveryError {
                        kind: ErrorKind::NoMatchingEndpoint,
                        message: no_endpoint_message(entity_id, protocol, operations),
                    },
                ),
                Some(at) => {
                    proof {
                        lemma_first_match_wins(listed, protocol@, operations.deep_view());
                    }
                    let mut endpoint = endpoints.swap_remove(at);
                    assert(endpoint@ == listed[at as int]);
                    match get_uri(endpoint.uri.as_str(), mode) {
                        Ok(uri) => {
                            endpoint.uri = uri;
                            Ok(endpoint)
                        },
                        Err(cause) => Err(
                            DiscoveryError {
                                kind: cause.kind,
                                message: normalization_failed_message(cause.message.as_str()),
                            },
                        ),
                    }
                },
            }
        },
    }
}

/// Whatever is selected speaks exactly the required protocol and offers
/// every required operation.
pub proof fn lemma_selected_endpoint_qualifies(
    endpoints: Seq<EndpointInfoView>,
    entity_id: Seq<char>,
    protocol: Seq<char>,
    operations: Seq<Seq<char>>,
    mode: AddressModeView,
)
    requires
        selection(endpoints, entity_id, protocol, operations, mode) is Ok,
    ensures
        selection(endpoints, entity_id, protocol, operations, mode)->Ok_0.protocol == protocol,
        covers(
            selection(endpoints, entity_id, protocol, operations, mode)->Ok_0.operations,
            operations,
        ),
{
    lemma_first_match_wins(endpoints, protocol, operations);
}

/// The earliest endpoint that qualifies is the one selected, a later one that
/// qualifies too notwithstanding: in direct mode it comes back as listed.
pub proof fn lemma_earliest_qualifying_is_selected(
    endpoints: Seq<EndpointInfoView>,
    entity_id: Seq<char>,
    protocol: Seq<char>,
    operations: Seq<Seq<char>>,
    at: int,
)
    requires
        0 <= at < endpoints.len(),
        qualifies(endpoints[at], protocol, operations),
        forall|j: int| 0 <= j < at ==> !qualifies(#[trigger] endpoints[j], protocol, operations),
    ensures
        selection(endpoints, entity_id, protocol, operations, AddressModeView::Direct) == Ok::<
            EndpointInfoView,
            DiscoveryErrorView,
        >(endpoints[at]),
{
    lemma_first_match_wins(endpoints, protocol, operations);
}

/// An answer without access information is "entity not found".
pub proof fn lemma_absent_entity_is_not_found(
    entity_id: Seq<char>,
    protocol: Seq<char>,
    operations: Seq<Seq<char>>,
    mode: AddressModeView,
)
    ensures
        provider_resolution(
            DirectoryReplyView::Answered(None),
            entity_id,
            protocol,
            operations,
            mode,
        ) is Err,
        provider_resolution(
            DirectoryReplyView::Answered(None),
            entity_id,
            protocol,
            operations,
            mode,
        )->Err_0.kind == ErrorKind::EntityNotFound,
{
}

/// Access information is there: resolution fails with "no matching endpoint"
/// exactly when no listed endpoint qualifies, an empty list included.
pub proof fn lemma_no_match_iff_none_qualifies(
    endpoints: Seq<EndpointInfoView>,
    entity_id: Seq<char>,
    protocol: Seq<char>,
    operations: Seq<Seq<char>>,
    mode: AddressModeView,
)
    ensures
        (forall|j: int|
            0 <= j < endpoints.len() ==> !qualifies(#[trigger] endpoints[j], protocol, operations))
            <==> (provider_resolution(
            DirectoryReplyView::Answered(Some(endpoints)),
            entity_id,
            protocol,
            operations,
            mode,
        ) is Err && provider_resolution(
            DirectoryReplyView::Answered(Some(endpoints)),
            entity_id,
            protocol,
            operations,
            mode,
        )->Err_0.kind == ErrorKind::NoMatchingEndpoint),
{
    lemma_first_match_wins(endpoints, protocol, operations);
}

/// Two resolutions of the same answer for the same request agree, in the
/// endpoint and in the failure: the result depends on nothing else.
pub proof fn lemma_resolution_is_repeatable(
    first: Result<EndpointInfo, DiscoveryError>,
    second: Result<EndpointInfo, DiscoveryError>,
    reply: DirectoryReplyView,
    entity_id: Seq<char>,
    protocol: Seq<char>,
    operations: Seq<Seq<char>>,
    mode: AddressModeView,
)
    requires
        endpoint_outcome(first) == provider_resolution(reply, entity_id, protocol, operations, mode),
        endpoint_outcome(second) == provider_resolution(
            reply,
            entity_id,
            protocol,
            operations,
            mode,
        ),
    ensures
        endpoint_outcome(first) == endpoint_outcome(second),
{
}

} // verus!
