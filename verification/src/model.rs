//! The data that discovery works on, and the mathematical view of each type.

use vstd::prelude::*;

verus! {

/// Why a resolution failed.
#[derive(Clone, Copy, Debug, PartialEq, Eq, Structural)]
pub enum ErrorKind {
    /// No connection to the target address could be established.
    ConnectionFailure,
    /// The connection stood, but the remote call itself failed.
    CallFailure,
    /// The registry knows no such service, or knows it with another
    /// communication kind or reference.
    NotFound,
    /// The directory holds no access information for the entity.
    EntityNotFound,
    /// Access information exists, but no endpoint meets the requirements.
    NoMatchingEndpoint,
    /// Isolated-network mode is on and a required setting is absent.
    MissingConfiguration,
}

/// The status under which a failure is reported to a remote caller.
#[derive(Clone, Copy, Debug, PartialEq, Eq, Structural)]
pub enum StatusCode {
    Internal,
    NotFound,
    FailedPrecondition,
}

impl ErrorKind {
    /// A failed transport is internal, a missing setting is a failed
    /// precondition, and everything that was looked for in vain is not found.
    pub open spec fn spec_status_code(self) -> StatusCode {
        match self {
            ErrorKind::ConnectionFailure | ErrorKind::CallFailure => StatusCode::Internal,
            ErrorKind::NotFound | ErrorKind::EntityNotFound | ErrorKind::NoMatchingEndpoint =>
                StatusCode::NotFound,
            ErrorKind::MissingConfiguration => StatusCode::FailedPrecondition,
        }
    }

    /// The status under which a failure of this kind is reported.
    #[verifier::when_used_as_spec(spec_status_code)]
    pub fn status_code(self) -> (code: StatusCode)
        ensures
            code == self.spec_status_code(),
    {
        match self {
            ErrorKind::ConnectionFailure => StatusCode::Internal,
            ErrorKind::CallFailure => StatusCode::Internal,
            ErrorKind::NotFound => StatusCode::NotFound,
            ErrorKind::EntityNotFound => StatusCode::NotFound,
            ErrorKind::NoMatchingEndpoint => StatusCode::NotFound,
            ErrorKind::MissingConfiguration => StatusCode::FailedPrecondition,
        }
    }
}

/// A failed resolution: its kind, and a text that names the request.
#[derive(Clone, Debug, PartialEq, Eq)]
pub struct DiscoveryError {
    pub kind: ErrorKind,
    pub message: String,
}

/// What a `DiscoveryError` is in contracts.
pub ghost struct DiscoveryErrorView {
    pub kind: ErrorKind,
    pub message: Seq<char>,
}

impl View for DiscoveryError {
    type V = DiscoveryErrorView;

    open spec fn view(&self) -> DiscoveryErrorView {
        DiscoveryErrorView { kind: self.kind, message: self.message@ }
    }
}

/// A service as the registry recorded it.
#[derive(Clone, Debug, PartialEq, Eq)]
pub struct ServiceRegistration {
    pub uri: String,
    pub communication_kind: String,
    pub communication_reference: String,
}

/// What a `ServiceRegistration` is in contracts.
pub ghost struct ServiceRegistrationView {
    pub uri: Seq<char>,
    pub communication_kind: Seq<char>,
    pub communication_reference: Seq<char>,
}

impl View for ServiceRegistration {
    type V = ServiceRegistrationView;

    open spec fn view(&self) -> ServiceRegistrationView {
        ServiceRegistrationView {
            uri: self.uri@,
            communication_kind: self.communication_kind@,
            communication_reference: self.communication_reference@,
        }
    }
}

/// One way to reach an entity: where, by which protocol, for which operations.
#[derive(Clone, Debug, PartialEq, Eq)]
pub struct EndpointInfo {
    pub uri: String,
    pub protocol: String,
    pub operations: Vec<String>,
}

/// What an `EndpointInfo` is in contracts.
pub ghost struct EndpointInfoView {
    pub uri: Seq<char>,
    pub protocol: Seq<char>,
    pub operations: Seq<Seq<char>>,
}

impl View for EndpointInfo {
    type V = EndpointInfoView;

    open spec fn view(&self) -> EndpointInfoView {
        EndpointInfoView {
            uri: self.uri@,
            protocol: self.protocol@,
            operations: self.operations.deep_view(),
        }
    }
}

/// The access endpoints that the directory lists for one entity, in its order.
#[derive(Clone, Debug, PartialEq, Eq)]
pub struct EntityAccessInfo {
    pub endpoint_info_list: Vec<EndpointInfo>,
}

/// The views of `endpoints`, in the same order.
pub open spec fn endpoint_views(endpoints: Seq<EndpointInfo>) -> Seq<EndpointInfoView> {
    Seq::new(endpoints.len(), |i: int| endpoints[i]@)
}

impl View for EntityAccessInfo {
    type V = Seq<EndpointInfoView>;

    open spec fn view(&self) -> Seq<EndpointInfoView> {
        endpoint_views(self.endpoint_info_list@)
    }
}

/// How one round trip to the registry ended.
#[derive(Clone, Debug, PartialEq, Eq)]
pub enum RegistryReply {
    /// No connection; the text is the transport's.
    ConnectionFailed(String),
    /// The call failed; the text is the transport's.
    CallFailed(String),
    /// The registry answered, with a service record or without one.
    Answered(Option<ServiceRegistration>),
}

/// What a `RegistryReply` is in contracts.
pub ghost enum RegistryReplyView {
    ConnectionFailed(Seq<char>),
    CallFailed(Seq<char>),
    Answered(Option<ServiceRegistrationView>),
}

impl View for RegistryReply {
    type V = RegistryReplyView;

    open spec fn view(&self) -> RegistryReplyView {
        match self {
            RegistryReply::ConnectionFailed(cause) => RegistryReplyView::ConnectionFailed(cause@),
            RegistryReply::CallFailed(cause) => RegistryReplyView::CallFailed(cause@),
            RegistryReply::Answered(None) => RegistryReplyView::Answered(None),
            RegistryReply::Answered(Some(service)) => RegistryReplyView::Answered(Some(service@)),
        }
    }
}

/// How one round trip to the directory ended.
#[derive(Clone, Debug, PartialEq, Eq)]
pub enum DirectoryReply {
    /// No connection; the text is the transport's.
    ConnectionFailed(String),
    /// The call failed; the text is the transport's.
    CallFailed(String),
    /// The directory answered, with access information or without it.
    Answered(Option<EntityAccessInfo>),
}

/// What a `DirectoryReply` is in contracts.
pub ghost enum DirectoryReplyView {
    ConnectionFailed(Seq<char>),
    CallFailed(Seq<char>),
    Answered(Option<Seq<EndpointInfoView>>),
}

impl View for DirectoryReply {
    type V = DirectoryReplyView;

    open spec fn view(&self) -> DirectoryReplyView {
        match self {
            DirectoryReply::ConnectionFailed(cause) => DirectoryReplyView::ConnectionFailed(cause@),
            DirectoryReply::CallFailed(cause) => DirectoryReplyView::CallFailed(cause@),
            DirectoryReply::Answered(None) => DirectoryReplyView::Answered(None),
            DirectoryReply::Answered(Some(info)) => DirectoryReplyView::Answered(Some(info@)),
        }
    }
}

/// How resolved addresses are made reachable.
#[derive(Clone, Debug, PartialEq, Eq)]
pub enum AddressMode {
    /// Addresses are used as they are.
    Direct,
    /// The caller runs in an isolated network namespace: the loopback alias in
    /// an address is replaced by the gateway address. Both settings are
    /// required; `None` stands for one that is absent.
    Isolated { host_gateway: Option<String>, host_alias: Option<String> },
}

/// What an `AddressMode` is in contracts.
pub ghost enum AddressModeView {
    Direct,
    Isolated { host_gateway: Option<Seq<char>>, host_alias: Option<Seq<char>> },
}

/// A setting as contracts see it.
pub open spec fn setting_view(setting: Option<String>) -> Option<Seq<char>> {
    match setting {
        Some(text) => Some(text@),
        None => None,
    }
}

impl View for AddressMode {
    type V = AddressModeView;

    open spec fn view(&self) -> AddressModeView {
        match self {
            AddressMode::Direct => AddressModeView::Direct,
            AddressMode::Isolated { host_gateway, host_alias } => AddressModeView::Isolated {
                host_gateway: setting_view(*host_gateway),
                host_alias: setting_view(*host_alias),
            },
        }
    }
}

/// A resolved address, or the failure, as contracts see it.
pub open spec fn uri_outcome(result: Result<String, DiscoveryError>) -> Result<
    Seq<char>,
    DiscoveryErrorView,
> {
    match result {
        Ok(uri) => Ok(uri@),
        Err(error) => Err(error@),
    }
}

/// A resolved endpoint, or the failure, as contracts see it.
pub open spec fn endpoint_outcome(result: Result<EndpointInfo, DiscoveryError>) -> Result<
    EndpointInfoView,
    DiscoveryErrorView,
> {
    match result {
        Ok(endpoint) => Ok(endpoint@),
        Err(error) => Err(error@),
    }
}

} // verus!
