use std::collections::HashMap;

use multipeerconnectivity::discovery::DiscoveryInfo;
use multipeerconnectivity::validation::{json_result_cstring, json_to_cstring};
use multipeerconnectivity::{
    c_string, discovery_info_cstring, display_name_cstring, resource_path_cstring,
    service_type_cstring, CStringField,
    MultipeerError,
};

fn service_type_error(service_type: &str) -> String {
    match service_type_cstring(service_type) {
        Err(MultipeerError::InvalidArgument(message)) => message,
        other => {
            panic!("expected an invalid-argument error for {service_type:?}, got {other:?}")
        }
    }
}

fn info_of(pairs: &[(&str, &str)]) -> DiscoveryInfo {
    let mut info = DiscoveryInfo::new();
    for (key, value) in pairs {
        info.insert((*key).to_owned(), (*value).to_owned());
    }
    info
}

fn discovery_error(pairs: &[(&str, &str)]) -> String {
    let info = info_of(pairs);
    match discovery_info_cstring(Some(&info)) {
        Err(MultipeerError::InvalidArgument(message)) => message,
        other => panic!("expected an invalid-argument error for {pairs:?}, got {other:?}"),
    }
}

fn c_text(bytes: &[u8]) -> &str {
    assert_eq!(bytes.last(), Some(&0));
    std::str::from_utf8(&bytes[..bytes.len() - 1]).expect("utf-8")
}

#[test]
fn accepts_rfc_6335_service_types() {
    for service_type in ["a", "a1", "1a", "a-b", "doom-chat", "abcdefghijklmno"] {
        let value = service_type_cstring(service_type).expect(service_type);
        assert_eq!(c_text(&value), service_type);
    }
}

#[test]
fn rejects_service_types_the_framework_throws_on() {
    assert_eq!(service_type_error(""), "service type must not be empty");
    assert_eq!(
        service_type_error("abcdefghijklmnop"),
        "service type must be at most 15 ASCII characters"
    );
    for service_type in ["a_b", "a.b", "ABC", "a b", "caf\u{e9}", "a\0b"] {
        assert_eq!(
            service_type_error(service_type),
            "service type must contain only lowercase ASCII letters, digits, or hyphens"
        );
    }
    assert_eq!(
        service_type_error("123"),
        "service type must contain at least one letter"
    );
    assert_eq!(
        service_type_error("-"),
        "service type must contain at least one letter"
    );
    for service_type in ["-abc", "abc-"] {
        assert_eq!(
            service_type_error(service_type),
            "service type must not begin or end with a hyphen"
        );
    }
    assert_eq!(
        service_type_error("a--b"),
        "service type must not contain consecutive hyphens"
    );
}

#[test]
fn missing_discovery_info_stays_absent() {
    assert!(discovery_info_cstring(None).expect("none").is_none());
}

#[test]
fn valid_discovery_info_round_trips_as_json() {
    let mut info = DiscoveryInfo::new();
    info.insert("role".to_owned(), "host=1 caf\u{e9}".to_owned());
    info.insert("a b".to_owned(), String::new());
    info.insert("k".to_owned(), "v".repeat(252));
    let json = discovery_info_cstring(Some(&info))
        .expect("valid")
        .expect("present");
    let decoded: HashMap<String, String> = serde_json::from_str(c_text(&json)).expect("json");
    let expected: HashMap<String, String> = info.entries().iter().cloned().collect();
    assert_eq!(decoded, expected);
}

#[test]
fn rejects_discovery_keys_the_framework_throws_on() {
    assert_eq!(
        discovery_error(&[("", "v")]),
        "discovery info keys must not be empty"
    );
    for key in ["a=b", "caf\u{e9}", "a\tb", "a\u{7f}", "a\0b"] {
        assert_eq!(
            discovery_error(&[(key, "v")]),
            format!(
                "discovery info key {key:?} must contain only printable ASCII characters other than '='"
            )
        );
    }
}

#[test]
fn rejects_discovery_pairs_longer_than_254_bytes() {
    let at_limit = "v".repeat(252);
    assert!(discovery_info_cstring(Some(&info_of(&[("k", &at_limit)]))).is_ok());

    let over_limit = "v".repeat(253);
    assert_eq!(
        discovery_error(&[("k", &over_limit)]),
        "discovery info entry \"k\" is 255 bytes as key=value; at most 254 are allowed"
    );

    let multibyte = "\u{e9}".repeat(127);
    assert_eq!(
        discovery_error(&[("k", &multibyte)]),
        "discovery info entry \"k\" is 256 bytes as key=value; at most 254 are allowed"
    );
}

#[test]
fn advertiser_rejects_inputs_the_framework_would_abort_on() {
    for service_type in ["-chat", "chat-", "doom--chat", "1234"] {
        let error = service_type_cstring(service_type).expect_err(service_type);
        assert!(
            matches!(error, MultipeerError::InvalidArgument(_)),
            "{service_type}: {error:?}"
        );
    }
    for (key, value) in [
        ("", "v".to_string()),
        ("a=b", "v".to_string()),
        ("caf\u{e9}", "v".to_string()),
        ("k", "v".repeat(253)),
    ] {
        let info = info_of(&[(key, value.as_str())]);
        let error = discovery_info_cstring(Some(&info)).expect_err(key);
        assert!(
            matches!(error, MultipeerError::InvalidArgument(_)),
            "{key:?}: {error:?}"
        );
    }
    let info = info_of(&[("k", &"v".repeat(252))]);
    let json = discovery_info_cstring(Some(&info))
        .expect("valid")
        .expect("present");
    let decoded: HashMap<String, String> = serde_json::from_str(c_text(&json)).expect("json");
    assert_eq!(decoded, HashMap::from([("k".to_string(), "v".repeat(252))]));
}

#[test]
fn browser_rejects_service_types_the_framework_would_abort_on() {
    for service_type in [
        "",
        "-chat",
        "chat-",
        "doom--chat",
        "1234",
        "doom_chat",
        "a-very-long-service",
    ] {
        let error = service_type_cstring(service_type).expect_err(service_type);
        assert!(
            matches!(error, MultipeerError::InvalidArgument(_)),
            "{service_type:?}: {error:?}"
        );
    }
}

#[test]
fn peer_id_rejects_invalid_display_names() {
    assert!(matches!(
        display_name_cstring(""),
        Err(MultipeerError::InvalidArgument(_))
    ));
    let too_long = "x".repeat(64);
    assert!(matches!(
        display_name_cstring(&too_long),
        Err(MultipeerError::InvalidArgument(_))
    ));
}

#[test]
fn display_names_up_to_63_bytes_are_accepted() {
    let at_limit = "x".repeat(63);
    let value = display_name_cstring(&at_limit).expect("63 bytes");
    assert_eq!(c_text(&value), at_limit);
    let multibyte = "\u{e9}".repeat(32);
    match display_name_cstring(&multibyte) {
        Err(MultipeerError::InvalidArgument(message)) => {
            assert_eq!(message, "display name must be at most 63 bytes of UTF-8");
        }
        other => panic!("expected a length error, got {other:?}"),
    }
}

#[test]
fn display_names_with_nul_are_refused() {
    match display_name_cstring("a\0b") {
        Err(MultipeerError::InvalidArgument(message)) => {
            assert_eq!(message, "display name must not contain NUL bytes");
        }
        other => panic!("expected a NUL error, got {other:?}"),
    }
    match display_name_cstring("") {
        Err(MultipeerError::InvalidArgument(message)) => {
            assert_eq!(message, "display name must not be empty");
        }
        other => panic!("expected an empty-name error, got {other:?}"),
    }
}

#[test]
fn text_fields_refuse_nul_bytes() {
    let cases = [
        (CStringField::ResourceName, "resource name must not contain NUL bytes"),
        (CStringField::StreamName, "stream name must not contain NUL bytes"),
    ];
    for (field, expected) in cases {
        match c_string("a\0b", field) {
            Err(MultipeerError::InvalidArgument(message)) => assert_eq!(message, expected),
            other => panic!("expected a NUL error, got {other:?}"),
        }
        let value = c_string("/tmp/caf\u{e9}.txt", field).expect("no NUL");
        assert_eq!(c_text(&value), "/tmp/caf\u{e9}.txt");
    }
}

#[test]
fn resource_path_must_be_utf8() {
    let invalid: [&[u8]; 5] = [
        &[0xff],
        &[b'/', b't', 0xc3],
        &[0xc0, 0xaf],
        &[0xed, 0xa0, 0x80],
        &[0xf4, 0x90, 0x80, 0x80],
    ];
    for path in invalid {
        match resource_path_cstring(path) {
            Err(MultipeerError::InvalidArgument(message)) => {
                assert_eq!(message, "resource path must be valid UTF-8");
            }
            other => panic!("expected a UTF-8 error for {path:?}, got {other:?}"),
        }
    }
}

#[test]
fn resource_path_utf8_is_checked_before_nul() {
    match resource_path_cstring(&[0, 0xff]) {
        Err(MultipeerError::InvalidArgument(message)) => {
            assert_eq!(message, "resource path must be valid UTF-8");
        }
        other => panic!("expected a UTF-8 error, got {other:?}"),
    }
    match resource_path_cstring(b"/tmp/a\0b") {
        Err(MultipeerError::InvalidArgument(message)) => {
            assert_eq!(message, "resource path must not contain NUL bytes");
        }
        other => panic!("expected a NUL error, got {other:?}"),
    }
}

#[test]
fn resource_path_becomes_a_c_string() {
    let path = "/tmp/caf\u{e9} \u{1F600}.txt";
    let value = resource_path_cstring(path.as_bytes()).expect("valid path");
    assert_eq!(value.last(), Some(&0));
    assert_eq!(&value[..value.len() - 1], path.as_bytes());
    assert_eq!(c_text(&value), path);
    assert_eq!(resource_path_cstring(b"").expect("empty path"), vec![0]);
}

#[test]
fn json_text_with_nul_is_refused() {
    match json_to_cstring("{\"k\":\"a\0b\"}") {
        Err(MultipeerError::InvalidArgument(message)) => {
            assert_eq!(message, "discovery info JSON must not contain NUL bytes");
        }
        other => panic!("expected a NUL error, got {other:?}"),
    }
    assert_eq!(json_to_cstring("{}").expect("no NUL"), b"{}\0".to_vec());
}

#[test]
fn the_first_refused_entry_is_reported() {
    let message = discovery_error(&[("good", "v"), ("", "v"), ("a=b", "v")]);
    assert_eq!(message, "discovery info keys must not be empty");
}

#[test]
fn discovery_json_holds_every_entry() {
    let info = info_of(&[("b", "2"), ("a", "1")]);
    let json = discovery_info_cstring(Some(&info))
        .expect("valid")
        .expect("present");
    assert_eq!(c_text(&json), "{\"a\":\"1\",\"b\":\"2\"}");
}

#[test]
fn json_writer_errors_become_invalid_arguments() {
    let error = serde_json::from_str::<u8>("x").unwrap_err();
    let message = error.to_string();
    match json_result_cstring(Err(error)) {
        Err(MultipeerError::InvalidArgument(m)) => assert_eq!(m, message),
        other => panic!("expected an invalid-argument error, got {other:?}"),
    }
    assert_eq!(json_result_cstring(Ok("{}".to_string())).expect("ok"), b"{}\0".to_vec());
}
