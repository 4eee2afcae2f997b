//! Registry resolution: from what the registry answered to the address of the
//! service that was asked for.

use crate::messages::{
    service_mismatch_message,
    service_mismatch_text,
    service_missing_message,
    service_missing_text,
};
use crate::model::{
    uri_outcome,
    DiscoveryError,
    DiscoveryErrorView,
    ErrorKind,
    RegistryReply,
    RegistryReplyView,
    ServiceRegistrationView,
};
use vstd::prelude::*;

verus! {

/// A record is trusted only when its communication kind and its communication
/// reference both equal what the caller expects.
pub open spec fn accepted(
    service: ServiceRegistrationView,
    communication_kind: Seq<char>,
    communication_reference: Seq<char>,
) -> bool {
    service.communication_kind == communication_kind && service.communication_reference
        == communication_reference
}

/// What registry resolution makes of `reply`.
pub open spec fn registry_resolution(
    reply: RegistryReplyView,
    namespace: Seq<char>,
    name: Seq<char>,
    version: Seq<char>,
    communication_kind: Seq<char>,
    communication_reference: Seq<char>,
) -> Result<Seq<char>, DiscoveryErrorView> {
    match reply {
        RegistryReplyView::ConnectionFailed(cause) => Err(
            DiscoveryErrorView { kind: ErrorKind::ConnectionFailure, message: cause },
        ),
        RegistryReplyView::CallFailed(cause) => Err(
            DiscoveryErrorView { kind: ErrorKind::CallFailure, message: cause },
        ),
        RegistryReplyView::Answered(None) => Err(
            DiscoveryErrorView {
                kind: ErrorKind::NotFound,
                message: service_missing_text(namespace, name, version),
            },
        ),
        RegistryReplyView::Answered(Some(service)) => if accepted(
            service,
            communication_kind,
            communication_reference,
        ) {
            Ok(service.uri)
        } else {
            Err(
                DiscoveryErrorView {
                    kind: ErrorKind::NotFound,
                    message: service_mismatch_text(
                        namespace,
                        name,
                        version,
                        communication_kind,
                        communication_reference,
                    ),
                },
            )
        },
    }
}

/// Do `text` and `expected` hold the same characters?
fn same_text(text: &String, expected: &str) -> (same: bool)
    ensures
        same == (text@ == expected@),
{
    let expected_text = expected.to_owned();
    *text == expected_text
}

/// Uses what the service registry answered to discover a service.
///
/// A failed connection or call is handed on with the transport's text. An
/// answer without a service record, and a record whose communication kind or
/// reference differs from the expected one, are both "not found". Otherwise
/// the record's URI is returned exactly as the registry gave it.
pub fn discover_service_using_chariott(
    reply: RegistryReply,
    namespace: &str,
    name: &str,
    version: &str,
    communication_kind: &str,
    communication_reference: &str,
) -> (result: Result<String, DiscoveryError>)
    ensures
        uri_outcome(result) == registry_resolution(
            reply@,
            namespace@,
            name@,
            version@,
            communication_kind@,
            communication_reference@,
        ),
{
    match reply {
        RegistryReply::ConnectionFailed(cause) => Err(
            DiscoveryError { kind: ErrorKind::ConnectionFailure, message: cause },
        ),
        RegistryReply::CallFailed(cause) => Err(
            DiscoveryError { kind: ErrorKind::CallFailure, message: cause },
        ),
        RegistryReply::Answered(None) => Err(
            DiscoveryError {
                kind: ErrorKind::NotFound,
                message: service_missing_message(namespace, name, version),
            },
        ),
        RegistryReply::Answered(Some(service)) => {
            if same_text(&service.communication_kind, communication_kind) && same_text(
                &service.communication_reference,
                communication_reference,
            ) {
                Ok(service.uri)
            } else {
                Err(
                    DiscoveryError {
                        kind: ErrorKind::NotFound,
                        message: service_mismatch_message(
                            namespace,
                            name,
                            version,
                            communication_kind,
                            communication_reference,
                        ),
                    },
                )
            }
        },
    }
}

/// An answer without a service record is "not found", and so is a record
/// whose communication kind and reference do not both equal the expected ones.
pub proof fn lemma_unmatched_service_is_not_found(
    answer: Option<ServiceRegistrationView>,
    namespace: Seq<char>,
    name: Seq<char>,
    version: Seq<char>,
    communication_kind: Seq<char>,
    communication_reference: Seq<char>,
)
    requires
        answer is None || !accepted(answer->Some_0, communication_kind, communication_reference),
    ensures
        registry_resolution(
            RegistryReplyView::Answered(answer),
            namespace,
            name,
            version,
            communication_kind,
            communication_reference,
        ) is Err,
        registry_resolution(
            RegistryReplyView::Answered(answer),
            namespace,
            name,
            version,
            communication_kind,
            communication_reference,
        )->Err_0.kind == ErrorKind::NotFound,
{
}

/// A record whose communication kind and reference both match yields its URI
/// as it stands: nothing is rewritten at this layer.
pub proof fn lemma_matching_service_yields_raw_uri(
    service: ServiceRegistrationView,
    namespace: Seq<char>,
    name: Seq<char>,
    version: Seq<char>,
    communication_kind: Seq<char>,
    communication_reference: Seq<char>,
)
    requires
        accepted(service, communication_kind, communication_reference),
    ensures
        registry_resolution(
            RegistryReplyView::Answered(Some(service)),
            namespace,
            name,
            version,
            communication_kind,
            communication_reference,
        ) == Ok::<Seq<char>, DiscoveryErrorView>(service.uri),
{
}

} // verus!
