//! The texts of the failures. Each names the request that failed.

use vstd::prelude::*;
use vstd::string::StringExecFns;

verus! {

/// Text for a service that the registry does not know.
pub open spec fn service_missing_text(
    namespace: Seq<char>,
    name: Seq<char>,
    version: Seq<char>,
) -> Seq<char> {
    "Did not find a service in Chariott with namespace '"@ + namespace + "', name '"@ + name
        + "' and version "@ + version
}

/// Text for a service that the registry knows with another communication kind
/// or reference than the one asked for.
pub open spec fn service_mismatch_text(
    namespace: Seq<char>,
    name: Seq<char>,
    version: Seq<char>,
    communication_kind: Seq<char>,
    communication_reference: Seq<char>,
) -> Seq<char> {
    service_missing_text(namespace, name, version) + " that has communication kind '"@
        + communication_kind + "' and communication_reference '"@ + communication_reference
        + "'"@
}

/// Text for an entity without access information.
pub open spec fn entity_missing_text(entity_id: Seq<char>) -> Seq<char> {
    "Did not find the entity with id '"@ + entity_id + "'"@
}

/// The names of `operations`, in order, separated by a comma and a space.
pub open spec fn listed(operations: Seq<Seq<char>>) -> Seq<char>
    decreases operations.len(),
{
    if operations.len() == 0 {
        Seq::empty()
    } else if operations.len() == 1 {
        operations[0]
    } else {
        listed(operations.drop_last()) + ", "@ + operations.last()
    }
}

/// Text for an entity none of whose endpoints meets the requirements.
pub open spec fn no_endpoint_text(
    entity_id: Seq<char>,
    protocol: Seq<char>,
    operations: Seq<Seq<char>>,
) -> Seq<char> {
    "Did not find an endpoint that met our requirements for entity id '"@ + entity_id
        + "' with protocol '"@ + protocol + "' and operations ["@ + listed(operations) + "]"@
}

/// Text for a required setting that is absent.
pub open spec fn missing_setting_text(variable: Seq<char>) -> Seq<char> {
    "Unable to get environment var '"@ + variable
        + "' with error: environment variable not found"@
}

/// Text for a matched endpoint whose address could not be normalized.
pub open spec fn normalization_failed_text(cause: Seq<char>) -> Seq<char> {
    "Failed to get provider URI due to error: "@ + cause
}

/// Builds the text for a service that the registry does not know.
pub fn service_missing_message(namespace: &str, name: &str, version: &str) -> (message: String)
    ensures
        message@ == service_missing_text(namespace@, name@, version@),
{
    let mut message = String::from_str("Did not find a service in Chariott with namespace '");
    message.append(namespace);
    message.append("', name '");
    message.append(name);
    message.append("' and version ");
    message.append(version);
    message
}

/// Builds the text for a service known with another communication kind or
/// reference.
pub fn service_mismatch_message(
    namespace: &str,
    name: &str,
    version: &str,
    communication_kind: &str,
    communication_reference: &str,
) -> (message: String)
    ensures
        message@ == service_mismatch_text(
            namespace@,
            name@,
            version@,
            communication_kind@,
            communication_reference@,
        ),
{
    let mut message = service_missing_message(namespace, name, version);
    message.append(" that has communication kind '");
    message.append(communication_kind);
    message.append("' and communication_reference '");
    message.append(communication_reference);
    message.append("'");
    message
}

/// Builds the text for an entity without access information.
pub fn entity_missing_message(entity_id: &str) -> (message: String)
    ensures
        message@ == entity_missing_text(entity_id@),
{
    let mut message = String::from_str("Did not find the entity with id '");
    message.append(entity_id);
    message.append("'");
    message
}

/// Writes the names of `operations`, in order, separated by a comma and a
/// space.
pub fn list_operations(operations: &[String]) -> (text: String)
    ensures
        text@ == listed(operations.deep_view()),
{
    let mut text = String::new();
    let mut i: usize = 0;
    while i < operations.len()
        invariant
            i <= operations.len(),
            text@ == listed(operations.deep_view().take(i as int)),
        decreases operations.len() - i,
    {
        let ghost before = operations.deep_view().take(i as int);
        let ghost after = operations.deep_view().take(i + 1);
        proof {
            assert(after.drop_last() =~= before);
            assert(after.last() == operations[i as int]@);
        }
        if i > 0 {
            text.append(", ");
        } else {
            assert(text@ + operations[i as int]@ =~= operations[i as int]@);
        }
        text.append(operations[i].as_str());
        i += 1;
    }
    assert(operations.deep_view().take(i as int) =~= operations.deep_view());
    text
}

/// Builds the text for an entity none of whose endpoints meets the
/// requirements.
pub fn no_endpoint_message(entity_id: &str, protocol: &str, operations: &[String]) -> (message:
    String)
    ensures
        message@ == no_endpoint_text(entity_id@, protocol@, operations.deep_view()),
{
    let names = list_operations(operations);
    let mut message = String::from_str(
        "Did not find an endpoint that met our requirements for entity id '",
    );
    message.append(entity_id);
    message.append("' with protocol '");
    message.append(protocol);
    message.append("' and operations [");
    message.append(names.as_str());
    message.append("]");
    message
}

/// Builds the text for a required setting that is absent.
pub fn missing_setting_message(variable: &str) -> (message: String)
    ensures
        message@ == missing_setting_text(variable@),
{
    let mut message = String::from_str("Unable to get environment var '");
    message.append(variable);
    message.append("' with error: environment variable not found");
    message
}

/// Builds the text for a matched endpoint whose address could not be
/// normalized.
pub fn normalization_failed_message(cause: &str) -> (message: String)
    ensures
        message@ == normalization_failed_text(cause@),
{
    let mut message = String::from_str("Failed to get provider URI due to error: ");
    message.append(cause);
    message
}

} // verus!
