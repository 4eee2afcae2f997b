use twin_discovery::address::{get_uri, replace_all, HOST_GATEWAY_VAR, LOCALHOST_ALIAS_VAR};
use twin_discovery::model::{AddressMode, DiscoveryError, ErrorKind};

fn isolated(gateway: Option<&str>, alias: Option<&str>) -> AddressMode {
    AddressMode::Isolated {
        host_gateway: gateway.map(|text| text.to_string()),
        host_alias: alias.map(|text| text.to_string()),
    }
}

#[test]
fn setting_names() {
    assert_eq!(HOST_GATEWAY_VAR, "HOST_GATEWAY");
    assert_eq!(LOCALHOST_ALIAS_VAR, "LOCALHOST_ALIAS");
}

#[test]
fn direct_mode_returns_input_unchanged() {
    for uri in ["http://localhost:8080/x", "", "localhost", "http://[::1]:50010", "grüße://ö"] {
        assert_eq!(get_uri(uri, &AddressMode::Direct), Ok(uri.to_string()));
    }
}

#[test]
fn isolated_mode_replaces_alias_by_gateway() {
    let mode = isolated(Some("10.0.0.1"), Some("localhost"));
    assert_eq!(get_uri("http://localhost:8080/x", &mode), Ok("http://10.0.0.1:8080/x".to_string()));
}

#[test]
fn isolated_mode_replaces_every_occurrence() {
    let mode = isolated(Some("10.0.0.1"), Some("localhost"));
    assert_eq!(
        get_uri("http://localhost:8080/localhost?next=localhost", &mode),
        Ok("http://10.0.0.1:8080/10.0.0.1?next=10.0.0.1".to_string())
    );
}

#[test]
fn isolated_mode_leaves_address_without_alias() {
    let mode = isolated(Some("10.0.0.1"), Some("localhost"));
    assert_eq!(get_uri("http://192.168.0.7:8080/x", &mode), Ok("http://192.168.0.7:8080/x".to_string()));
}

#[test]
fn second_pass_changes_nothing_once_alias_is_gone() {
    let mode = isolated(Some("10.0.0.1"), Some("localhost"));
    let once = get_uri("http://localhost:8080/x", &mode).unwrap();
    let twice = get_uri(&once, &mode).unwrap();
    assert_eq!(once, twice);
}

#[test]
fn missing_gateway_is_missing_configuration() {
    let result = get_uri("http://localhost:8080/x", &isolated(None, Some("localhost")));
    assert_eq!(
        result,
        Err(DiscoveryError {
            kind: ErrorKind::MissingConfiguration,
            message: "Unable to get environment var 'HOST_GATEWAY' with error: environment variable not found"
                .to_string(),
        })
    );
}

#[test]
fn missing_alias_is_missing_configuration() {
    let result = get_uri("http://localhost:8080/x", &isolated(Some("10.0.0.1"), None));
    assert_eq!(
        result,
        Err(DiscoveryError {
            kind: ErrorKind::MissingConfiguration,
            message: "Unable to get environment var 'LOCALHOST_ALIAS' with error: environment variable not found"
                .to_string(),
        })
    );
}

#[test]
fn both_settings_missing_names_the_gateway() {
    let error = get_uri("http://localhost:8080/x", &isolated(None, None)).unwrap_err();
    assert_eq!(error.kind, ErrorKind::MissingConfiguration);
    assert!(error.message.contains("'HOST_GATEWAY'"));
    assert!(!error.message.contains("LOCALHOST_ALIAS"));
}

#[test]
fn replace_all_exact_values() {
    assert_eq!(replace_all("abc", "b", "x"), "axc");
    assert_eq!(replace_all("aaa", "aa", "b"), "ba");
    assert_eq!(replace_all("aaaa", "aa", "b"), "bb");
    assert_eq!(replace_all("abc", "abc", ""), "");
    assert_eq!(replace_all("abc", "abcd", "x"), "abc");
    assert_eq!(replace_all("", "a", "x"), "");
    assert_eq!(replace_all("abab", "ab", "abab"), "abababab");
}

#[test]
fn replace_all_with_empty_pattern() {
    assert_eq!(replace_all("abc", "", "-"), "-a-b-c-");
    assert_eq!(replace_all("", "", "-"), "-");
    assert_eq!(replace_all("é", "", "ü"), "üéü");
}

#[test]
fn replace_all_agrees_with_std() {
    let texts = ["", "a", "localhost", "http://localhost:8080/x", "aaaaa", "abcabcabc", "ababa", "grüße ö ß", "日本語日本"];
    let patterns = ["", "a", "aa", "ab", "aba", "localhost", "abc", "ß", "日本", "x"];
    let replacements = ["", "a", "10.0.0.1", "ab", "é"];
    for text in texts {
        for pattern in patterns {
            for replacement in replacements {
                assert_eq!(
                    replace_all(text, pattern, replacement),
                    text.replace(pattern, replacement),
                    "text {:?}, pattern {:?}, replacement {:?}",
                    text,
                    pattern,
                    replacement
                );
            }
        }
    }
}
