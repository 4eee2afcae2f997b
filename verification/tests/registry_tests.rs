use twin_discovery::model::{DiscoveryError, ErrorKind, RegistryReply, ServiceRegistration, StatusCode};
use twin_discovery::registry::discover_service_using_chariott;

fn record(uri: &str, kind: &str, reference: &str) -> ServiceRegistration {
    ServiceRegistration {
        uri: uri.to_string(),
        communication_kind: kind.to_string(),
        communication_reference: reference.to_string(),
    }
}

fn resolve(reply: RegistryReply) -> Result<String, DiscoveryError> {
    discover_service_using_chariott(reply, "sdv.ibeji", "invehicle_digital_twin", "1.0", "grpc+proto", "digital_twin.proto")
}

const MISSING: &str =
    "Did not find a service in Chariott with namespace 'sdv.ibeji', name 'invehicle_digital_twin' and version 1.0";

const MISMATCH: &str = "Did not find a service in Chariott with namespace 'sdv.ibeji', name 'invehicle_digital_twin' and version 1.0 that has communication kind 'grpc+proto' and communication_reference 'digital_twin.proto'";

#[test]
fn matching_record_yields_its_uri() {
    let reply = RegistryReply::Answered(Some(record("http://0.0.0.0:5010", "grpc+proto", "digital_twin.proto")));
    assert_eq!(resolve(reply), Ok("http://0.0.0.0:5010".to_string()));
}

#[test]
fn uri_is_returned_raw() {
    for uri in ["http://localhost:5010", "", "  http://LOCALHOST:5010/a b ", "not a uri at all"] {
        let reply = RegistryReply::Answered(Some(record(uri, "grpc+proto", "digital_twin.proto")));
        assert_eq!(resolve(reply), Ok(uri.to_string()));
    }
}

#[test]
fn answer_without_record_is_not_found() {
    assert_eq!(
        resolve(RegistryReply::Answered(None)),
        Err(DiscoveryError { kind: ErrorKind::NotFound, message: MISSING.to_string() })
    );
}

#[test]
fn record_with_other_kind_and_reference_is_not_found() {
    let reply = RegistryReply::Answered(Some(record("http://0.0.0.0:5010", "mqtt_v5", "other.proto")));
    assert_eq!(resolve(reply), Err(DiscoveryError { kind: ErrorKind::NotFound, message: MISMATCH.to_string() }));
}

#[test]
fn record_with_other_kind_only_is_not_found() {
    let reply = RegistryReply::Answered(Some(record("http://0.0.0.0:5010", "mqtt_v5", "digital_twin.proto")));
    assert_eq!(resolve(reply), Err(DiscoveryError { kind: ErrorKind::NotFound, message: MISMATCH.to_string() }));
}

#[test]
fn record_with_other_reference_only_is_not_found() {
    let reply = RegistryReply::Answered(Some(record("http://0.0.0.0:5010", "grpc+proto", "other.proto")));
    assert_eq!(resolve(reply), Err(DiscoveryError { kind: ErrorKind::NotFound, message: MISMATCH.to_string() }));
}

#[test]
fn failed_connection_keeps_the_transport_text() {
    let reply = RegistryReply::ConnectionFailed("transport error".to_string());
    assert_eq!(
        resolve(reply),
        Err(DiscoveryError { kind: ErrorKind::ConnectionFailure, message: "transport error".to_string() })
    );
}

#[test]
fn failed_call_keeps_the_transport_text() {
    let reply = RegistryReply::CallFailed("status: Unavailable".to_string());
    assert_eq!(
        resolve(reply),
        Err(DiscoveryError { kind: ErrorKind::CallFailure, message: "status: Unavailable".to_string() })
    );
}

#[test]
fn status_code_of_each_kind() {
    assert_eq!(ErrorKind::ConnectionFailure.status_code(), StatusCode::Internal);
    assert_eq!(ErrorKind::CallFailure.status_code(), StatusCode::Internal);
    assert_eq!(ErrorKind::NotFound.status_code(), StatusCode::NotFound);
    assert_eq!(ErrorKind::EntityNotFound.status_code(), StatusCode::NotFound);
    assert_eq!(ErrorKind::NoMatchingEndpoint.status_code(), StatusCode::NotFound);
    assert_eq!(ErrorKind::MissingConfiguration.status_code(), StatusCode::FailedPrecondition);
}

#[test]
fn root_exports_the_resolvers() {
    let reply = RegistryReply::Answered(Some(record("http://0.0.0.0:5010", "k", "r")));
    assert_eq!(
        twin_discovery::discover_service_using_chariott(reply, "n", "s", "1", "k", "r"),
        Ok("http://0.0.0.0:5010".to_string())
    );
    assert!(twin_discovery::is_subset(&[], &["get".to_string()]));
    assert_eq!(
        twin_discovery::get_uri("http://localhost", &twin_discovery::model::AddressMode::Direct),
        Ok("http://localhost".to_string())
    );
}
