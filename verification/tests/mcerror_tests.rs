use multipeerconnectivity::error::last_error;
use multipeerconnectivity::{BridgeErrorInfo, FrameworkError, MCErrorCode, MultipeerError};

const MC_ERROR_DOMAIN: &str = "com.apple.MultipeerConnectivity.error";

#[test]
fn mc_error_codes_roundtrip() {
    assert_eq!(MCErrorCode::from_raw(4), MCErrorCode::TimedOut);
    assert_eq!(MCErrorCode::Unavailable.as_raw(), 6);
}

#[test]
fn framework_error_maps_multipeer_domain() {
    let error = FrameworkError::new(MC_ERROR_DOMAIN.to_string(), 2, "bad parameter".into());
    assert_eq!(
        error.mc_error_code(MC_ERROR_DOMAIN),
        Some(MCErrorCode::InvalidParameter)
    );
    assert_eq!(
        MultipeerError::Framework(error.clone()).to_string(MC_ERROR_DOMAIN),
        format!("framework error: {}", error.display_string(MC_ERROR_DOMAIN))
    );
}

#[test]
fn every_raw_code_round_trips() {
    for value in [-7, -1, 0, 1, 2, 3, 4, 5, 6, 7, 42, i32::MIN, i32::MAX] {
        assert_eq!(MCErrorCode::from_raw(value).as_raw(), value);
    }
    let named = [
        MCErrorCode::Unknown,
        MCErrorCode::NotConnected,
        MCErrorCode::InvalidParameter,
        MCErrorCode::Unsupported,
        MCErrorCode::TimedOut,
        MCErrorCode::Cancelled,
        MCErrorCode::Unavailable,
        MCErrorCode::Other(7),
        MCErrorCode::Other(-3),
    ];
    for code in named {
        assert_eq!(MCErrorCode::from_raw(code.as_raw()), code);
    }
    assert_eq!(MCErrorCode::from_raw(MCErrorCode::Other(3).as_raw()), MCErrorCode::Unsupported);
}

#[test]
fn error_codes_print_their_names() {
    assert_eq!(MCErrorCode::TimedOut.display_string(), "TimedOut");
    assert_eq!(MCErrorCode::Unknown.display_string(), "Unknown");
    assert_eq!(MCErrorCode::Other(42).display_string(), "Other(42)");
    assert_eq!(MCErrorCode::Other(-7).display_string(), "Other(-7)");
    assert_eq!(MCErrorCode::Other(i32::MIN).display_string(), "Other(-2147483648)");
}

#[test]
fn framework_errors_print_domain_code_and_description() {
    let error = FrameworkError::new(MC_ERROR_DOMAIN.to_string(), 4, "timed out".into());
    assert_eq!(
        error.display_string(MC_ERROR_DOMAIN),
        "com.apple.MultipeerConnectivity.error (TimedOut): timed out"
    );
    let other = FrameworkError::new("NSPOSIXErrorDomain".to_string(), -13, "denied".into());
    assert_eq!(other.mc_error_code(MC_ERROR_DOMAIN), None);
    assert_eq!(
        other.display_string(MC_ERROR_DOMAIN),
        "NSPOSIXErrorDomain (-13): denied"
    );
    assert_eq!(other.domain(), "NSPOSIXErrorDomain");
    assert_eq!(other.code(), -13);
    assert_eq!(other.description(), "denied");
}

#[test]
fn crate_errors_print_their_kind() {
    assert_eq!(
        MultipeerError::InvalidArgument("bad".into()).to_string(MC_ERROR_DOMAIN),
        "invalid argument: bad"
    );
    assert_eq!(
        MultipeerError::OperationFailed("broken".into()).to_string(MC_ERROR_DOMAIN),
        "operation failed: broken"
    );
    let error = FrameworkError::new(MC_ERROR_DOMAIN.to_string(), 1, "gone".into());
    assert_eq!(
        MultipeerError::Framework(error).to_string(MC_ERROR_DOMAIN),
        "framework error: com.apple.MultipeerConnectivity.error (NotConnected): gone"
    );
}

fn info(kind: i32) -> BridgeErrorInfo {
    BridgeErrorInfo {
        kind,
        domain: "D".to_string(),
        code: 9,
        description: "text".to_string(),
    }
}

#[test]
fn bridge_error_kinds_pick_the_variant() {
    assert!(matches!(info(1).into_error(), MultipeerError::InvalidArgument(m) if m == "text"));
    assert!(matches!(info(2).into_error(), MultipeerError::OperationFailed(m) if m == "text"));
    match info(3).into_error() {
        MultipeerError::Framework(e) => {
            assert_eq!((e.domain(), e.code(), e.description()), ("D", 9, "text"));
        }
        other => panic!("expected a framework error, got {other:?}"),
    }
    assert!(matches!(info(17).into_error(), MultipeerError::OperationFailed(m) if m == "text"));
    let e = info(1).into_framework_error();
    assert_eq!((e.domain(), e.code(), e.description()), ("D", 9, "text"));
}

#[test]
fn missing_bridge_errors_read_as_unknown_failures() {
    let unknown = BridgeErrorInfo::unknown_failure();
    assert!(matches!(
        unknown.into_error(),
        MultipeerError::OperationFailed(m) if m == "unknown MultipeerConnectivity failure"
    ));
    assert!(matches!(
        last_error(None),
        MultipeerError::OperationFailed(m) if m == "unknown MultipeerConnectivity failure"
    ));
    assert!(matches!(
        last_error(Some("boom".to_string())),
        MultipeerError::OperationFailed(m) if m == "boom"
    ));
}

#[test]
fn only_the_exact_framework_domain_names_codes() {
    let error = FrameworkError::new(MC_ERROR_DOMAIN.to_string(), 5, "stop".into());
    assert_eq!(error.mc_error_code(MC_ERROR_DOMAIN), Some(MCErrorCode::Cancelled));
    assert_eq!(error.mc_error_code("com.apple.MultipeerConnectivity.errox"), None);
    assert_eq!(error.mc_error_code("com.apple.MultipeerConnectivity"), None);
    assert_eq!(error.mc_error_code(""), None);
    let unicode = FrameworkError::new("d\u{e9}".to_string(), 77, "x".into());
    assert_eq!(unicode.mc_error_code("d\u{e9}"), Some(MCErrorCode::Other(77)));
    assert_eq!(unicode.mc_error_code("de"), None);
    assert_eq!(unicode.display_string("d\u{e9}"), "d\u{e9} (Other(77)): x");
    assert_eq!(error.clone(), error);
}
