//! Errors returned by the MultipeerConnectivity bindings: the framework's
//! `MCErrorCode`, framework error details, and the crate's error type.
use vstd::prelude::*;
use crate::text::{owned, push_signed_decimal, signed_decimal, str_eq};

verus! {

/// A `MultipeerConnectivity` `MCErrorCode`.
#[derive(Debug, Clone, Copy, PartialEq, Eq, Structural)]
#[non_exhaustive]
pub enum MCErrorCode {
    /// An unknown error.
    Unknown,
    /// The peer is not connected.
    NotConnected,
    /// A parameter was invalid.
    InvalidParameter,
    /// The operation is not supported.
    Unsupported,
    /// The connection attempt timed out.
    TimedOut,
    /// The operation was cancelled.
    Cancelled,
    /// Multipeer connectivity is unavailable.
    Unavailable,
    /// A raw code with no named variant.
    Other(i32),
}

impl MCErrorCode {
    /// The code that a raw value stands for.
    pub open spec fn spec_from_raw(value: i32) -> MCErrorCode {
        if value == 0 {
            MCErrorCode::Unknown
        } else if value == 1 {
            MCErrorCode::NotConnected
        } else if value == 2 {
            MCErrorCode::InvalidParameter
        } else if value == 3 {
            MCErrorCode::Unsupported
        } else if value == 4 {
            MCErrorCode::TimedOut
        } else if value == 5 {
            MCErrorCode::Cancelled
        } else if value == 6 {
            MCErrorCode::Unavailable
        } else {
            MCErrorCode::Other(value)
        }
    }

    /// The raw value of a code.
    pub open spec fn spec_as_raw(self) -> i32 {
        match self {
            MCErrorCode::Unknown => 0,
            MCErrorCode::NotConnected => 1,
            MCErrorCode::InvalidParameter => 2,
            MCErrorCode::Unsupported => 3,
            MCErrorCode::TimedOut => 4,
            MCErrorCode::Cancelled => 5,
            MCErrorCode::Unavailable => 6,
            MCErrorCode::Other(other) => other,
        }
    }

    /// The text that names a code: the variant's name, or `Other(<value>)`.
    pub open spec fn spec_text(self) -> Seq<char> {
        match self {
            MCErrorCode::Unknown => "Unknown"@,
            MCErrorCode::NotConnected => "NotConnected"@,
            MCErrorCode::InvalidParameter => "InvalidParameter"@,
            MCErrorCode::Unsupported => "Unsupported"@,
            MCErrorCode::TimedOut => "TimedOut"@,
            MCErrorCode::Cancelled => "Cancelled"@,
            MCErrorCode::Unavailable => "Unavailable"@,
            MCErrorCode::Other(value) => "Other("@ + signed_decimal(value as int) + ")"@,
        }
    }

    /// Converts a raw `MultipeerConnectivity` error code.
    #[verifier::when_used_as_spec(spec_from_raw)]
    pub fn from_raw(value: i32) -> (code: MCErrorCode)
        ensures
            code == MCErrorCode::spec_from_raw(value),
            value == 0 <==> code is Unknown,
            value == 1 <==> code is NotConnected,
            value == 2 <==> code is InvalidParameter,
            value == 3 <==> code is Unsupported,
            value == 4 <==> code is TimedOut,
            value == 5 <==> code is Cancelled,
            value == 6 <==> code is Unavailable,
            !(0 <= value <= 6) <==> code == MCErrorCode::Other(value),
    {
        match value {
            0 => MCErrorCode::Unknown,
            1 => MCErrorCode::NotConnected,
            2 => MCErrorCode::InvalidParameter,
            3 => MCErrorCode::Unsupported,
            4 => MCErrorCode::TimedOut,
            5 => MCErrorCode::Cancelled,
            6 => MCErrorCode::Unavailable,
            other => MCErrorCode::Other(other),
        }
    }

    /// Converts this error code to its raw value.
    #[verifier::when_used_as_spec(spec_as_raw)]
    pub fn as_raw(self) -> (value: i32)
        ensures
            value == self.spec_as_raw(),
            self is Unknown ==> value == 0,
            self is NotConnected ==> value == 1,
            self is InvalidParameter ==> value == 2,
            self is Unsupported ==> value == 3,
            self is TimedOut ==> value == 4,
            self is Cancelled ==> value == 5,
            self is Unavailable ==> value == 6,
            self matches MCErrorCode::Other(v) ==> value == v,
    {
        match self {
            MCErrorCode::Unknown => 0,
            MCErrorCode::NotConnected => 1,
            MCErrorCode::InvalidParameter => 2,
            MCErrorCode::Unsupported => 3,
            MCErrorCode::TimedOut => 4,
            MCErrorCode::Cancelled => 5,
            MCErrorCode::Unavailable => 6,
            MCErrorCode::Other(other) => other,
        }
    }

    /// The text that names this code, as its `Display` would print it.
    pub fn display_string(&self) -> (text: String)
        ensures
            text@ == self.spec_text(),
    {
        match self {
            MCErrorCode::Unknown => owned("Unknown"),
            MCErrorCode::NotConnected => owned("NotConnected"),
            MCErrorCode::InvalidParameter => owned("InvalidParameter"),
            MCErrorCode::Unsupported => owned("Unsupported"),
            MCErrorCode::TimedOut => owned("TimedOut"),
            MCErrorCode::Cancelled => owned("Cancelled"),
            MCErrorCode::Unavailable => owned("Unavailable"),
            MCErrorCode::Other(value) => {
                let mut text = owned("Other(");
                push_signed_decimal(&mut text, *value as i64);
                text.append(")");
                text
            },
        }
    }
}

/// Every raw value survives the trip through `MCErrorCode` unchanged.
pub proof fn lemma_raw_code_round_trip(value: i32)
    ensures
        MCErrorCode::spec_from_raw(value).spec_as_raw() == value,
{
}

/// The raw values are the framework's constants: 0 unknown, 1 not
/// connected, 2 invalid parameter, 3 unsupported, 4 timed out, 5 cancelled,
/// 6 unavailable; any other value is kept as `Other`.
pub proof fn lemma_mc_error_code_raw_values(value: i32)
    ensures
        MCErrorCode::Unknown.spec_as_raw() == 0,
        MCErrorCode::NotConnected.spec_as_raw() == 1,
        MCErrorCode::InvalidParameter.spec_as_raw() == 2,
        MCErrorCode::Unsupported.spec_as_raw() == 3,
        MCErrorCode::TimedOut.spec_as_raw() == 4,
        MCErrorCode::Cancelled.spec_as_raw() == 5,
        MCErrorCode::Unavailable.spec_as_raw() == 6,
        MCErrorCode::Other(value).spec_as_raw() == value,
        (MCErrorCode::spec_from_raw(value) is Unknown) <==> value == 0,
        (MCErrorCode::spec_from_raw(value) is Unavailable) <==> value == 6,
        !(0 <= value <= 6) ==> MCErrorCode::spec_from_raw(value) == MCErrorCode::Other(value),
{
}

/// An error in the framework's domain always maps to the code whose raw
/// value is the error's own, and so reads back that code in its text; an
/// error in any other domain maps to no code.
pub proof fn lemma_framework_domain_maps_code(e: FrameworkErrorView, error_domain: Seq<char>)
    ensures
        spec_mc_error_code(e, error_domain) is Some <==> e.domain == error_domain,
        spec_mc_error_code(e, error_domain) matches Some(c) ==> c.spec_as_raw() == e.code,
        e.domain == error_domain && e.code == 0 ==> spec_mc_error_code(e, error_domain) == Some(
            MCErrorCode::Unknown,
        ),
        e.domain == error_domain ==> framework_error_text(e, error_domain) == e.domain + " ("@
            + MCErrorCode::spec_from_raw(e.code).spec_text() + "): "@ + e.description,
        e.domain != error_domain ==> framework_error_text(e, error_domain) == e.domain + " ("@
            + signed_decimal(e.code as int) + "): "@ + e.description,
{
}

/// A code survives the trip through its raw value, except `Other` of a value
/// that has a named variant of its own.
pub proof fn lemma_code_raw_round_trip(code: MCErrorCode)
    requires
        !(code matches MCErrorCode::Other(v) && 0 <= v <= 6),
    ensures
        MCErrorCode::spec_from_raw(code.spec_as_raw()) == code,
{
}

/// The model of a [`FrameworkError`].
pub struct FrameworkErrorView {
    pub domain: Seq<char>,
    pub code: i32,
    pub description: Seq<char>,
}

/// Details from a `MultipeerConnectivity` framework error.
#[derive(Debug, Clone, PartialEq, Eq)]
pub struct FrameworkError {
    domain: String,
    code: i32,
    description: String,
}

impl View for FrameworkError {
    type V = FrameworkErrorView;

    closed spec fn view(&self) -> FrameworkErrorView {
        FrameworkErrorView {
            domain: self.domain@,
            code: self.code,
            description: self.description@,
        }
    }
}

/// The `MCErrorCode` of a framework error in the domain `error_domain`, if
/// its domain is that one.
pub open spec fn spec_mc_error_code(e: FrameworkErrorView, error_domain: Seq<char>) -> Option<
    MCErrorCode,
> {
    if e.domain == error_domain {
        Some(MCErrorCode::spec_from_raw(e.code))
    } else {
        None
    }
}

/// `<domain> (<code>): <description>`, where the code is named when the
/// domain is the framework's error domain.
pub open spec fn framework_error_text(e: FrameworkErrorView, error_domain: Seq<char>) -> Seq<
    char,
> {
    let code = match spec_mc_error_code(e, error_domain) {
        Some(c) => c.spec_text(),
        None => signed_decimal(e.code as int),
    };
    e.domain + " ("@ + code + "): "@ + e.description
}

impl FrameworkError {
    /// Creates a framework error value.
    pub fn new(domain: String, code: i32, description: String) -> (e: FrameworkError)
        ensures
            e@ == (FrameworkErrorView { domain: domain@, code, description: description@ }),
    {
        FrameworkError { domain, code, description }
    }

    /// The error domain.
    pub fn domain(&self) -> (d: &str)
        ensures
            d@ == self@.domain,
    {
        self.domain.as_str()
    }

    /// The raw error code.
    pub fn code(&self) -> (c: i32)
        ensures
            c == self@.code,
    {
        self.code
    }

    /// The error description.
    pub fn description(&self) -> (d: &str)
        ensures
            d@ == self@.description,
    {
        self.description.as_str()
    }

    /// The mapped `MCErrorCode` when this error belongs to `mc_error_domain`,
    /// the framework's `MCErrorDomain`.
    pub fn mc_error_code(&self, mc_error_domain: &str) -> (code: Option<MCErrorCode>)
        ensures
            code == spec_mc_error_code(self@, mc_error_domain@),
            self@.domain == mc_error_domain@ <==> code is Some,
            code matches Some(c) ==> c.spec_as_raw() == self@.code,
            self@.domain == mc_error_domain@ && self@.code == 0 ==> code == Some(
                MCErrorCode::Unknown,
            ),
    {
        if str_eq(self.domain.as_str(), mc_error_domain) {
            Some(MCErrorCode::from_raw(self.code))
        } else {
            None
        }
    }

    /// The text that `Display` prints for this error.
    pub fn display_string(&self, mc_error_domain: &str) -> (text: String)
        ensures
            text@ == framework_error_text(self@, mc_error_domain@),
    {
        let mut text = owned(self.domain.as_str());
        text.append(" (");
        match self.mc_error_code(mc_error_domain) {
            Some(code) => {
                let name = code.display_string();
                text.append(name.as_str());
            },
            None => push_signed_decimal(&mut text, self.code as i64),
        }
        text.append("): ");
        text.append(self.description.as_str());
        proof {
            let code = match spec_mc_error_code(self@, mc_error_domain@) {
                Some(c) => c.spec_text(),
                None => signed_decimal(self@.code as int),
            };
            assert(text@ =~= self@.domain + " ("@ + code + "): "@ + self@.description);
        }
        text
    }
}

/// The model of a [`MultipeerError`].
pub enum MultipeerErrorView {
    InvalidArgument(Seq<char>),
    OperationFailed(Seq<char>),
    Framework(FrameworkErrorView),
}

/// Errors surfaced by the MultipeerConnectivity wrappers.
#[derive(Debug, Clone, PartialEq, Eq)]
#[non_exhaustive]
pub enum MultipeerError {
    /// An invalid argument was passed to a wrapper.
    InvalidArgument(String),
    /// An internal wrapper operation failed.
    OperationFailed(String),
    /// The framework reported an error.
    Framework(FrameworkError),
}

impl View for MultipeerError {
    type V = MultipeerErrorView;

    open spec fn view(&self) -> MultipeerErrorView {
        match self {
            MultipeerError::InvalidArgument(m) => MultipeerErrorView::InvalidArgument(m@),
            MultipeerError::OperationFailed(m) => MultipeerErrorView::OperationFailed(m@),
            MultipeerError::Framework(e) => MultipeerErrorView::Framework(e@),
        }
    }
}

/// The text that `Display` prints for an error.
pub open spec fn multipeer_error_text(e: MultipeerErrorView, mc_error_domain: Seq<char>) -> Seq<
    char,
> {
    match e {
        MultipeerErrorView::InvalidArgument(m) => "invalid argument: "@ + m,
        MultipeerErrorView::OperationFailed(m) => "operation failed: "@ + m,
        MultipeerErrorView::Framework(f) => "framework error: "@ + framework_error_text(
            f,
            mc_error_domain,
        ),
    }
}

impl MultipeerError {
    /// The text that `Display` prints for this error; `mc_error_domain` is
    /// the framework's `MCErrorDomain`, which names the codes of its errors.
    pub fn to_string(&self, mc_error_domain: &str) -> (text: String)
        ensures
            text@ == multipeer_error_text(self@, mc_error_domain@),
    {
        match self {
            MultipeerError::InvalidArgument(m) => {
                let mut text = owned("invalid argument: ");
                text.append(m.as_str());
                text
            },
            MultipeerError::OperationFailed(m) => {
                let mut text = owned("operation failed: ");
                text.append(m.as_str());
                text
            },
            MultipeerError::Framework(e) => {
                let mut text = owned("framework error: ");
                let inner = e.display_string(mc_error_domain);
                text.append(inner.as_str());
                text
            },
        }
    }
}

/// The kind the bridge gives an error for an argument it refused.
pub const BRIDGE_ERROR_INVALID_ARGUMENT: i32 = 1;

/// The kind the bridge gives an error for an operation that failed.
pub const BRIDGE_ERROR_OPERATION_FAILED: i32 = 2;

/// The kind the bridge gives an error the framework reported.
pub const BRIDGE_ERROR_FRAMEWORK: i32 = 3;

/// The description of an error the bridge did not report.
pub open spec fn unknown_failure_message() -> Seq<char> {
    "unknown MultipeerConnectivity failure"@
}

/// The fields of an error object that the bridge hands back.
pub struct BridgeErrorInfo {
    /// One of the `BRIDGE_ERROR_*` kinds.
    pub kind: i32,
    /// The framework error domain, empty when there is none.
    pub domain: String,
    /// The framework error code.
    pub code: i32,
    /// The error description.
    pub description: String,
}

/// The error that bridge error fields stand for: the kind picks the variant,
/// and any kind other than an argument or framework error is a failed
/// operation.
pub open spec fn bridge_error(kind: i32, domain: Seq<char>, code: i32, description: Seq<char>) -> MultipeerErrorView {
    if kind == BRIDGE_ERROR_INVALID_ARGUMENT {
        MultipeerErrorView::InvalidArgument(description)
    } else if kind == BRIDGE_ERROR_FRAMEWORK {
        MultipeerErrorView::Framework(FrameworkErrorView { domain, code, description })
    } else {
        MultipeerErrorView::OperationFailed(description)
    }
}

impl BridgeErrorInfo {
    /// The fields that stand for a failure the bridge gave no error object
    /// for.
    pub fn unknown_failure() -> (info: BridgeErrorInfo)
        ensures
            info.kind == BRIDGE_ERROR_OPERATION_FAILED,
            info.domain@ == Seq::<char>::empty(),
            info.code == 0,
            info.description@ == unknown_failure_message(),
    {
        BridgeErrorInfo {
            kind: BRIDGE_ERROR_OPERATION_FAILED,
            domain: String::new(),
            code: 0,
            description: owned("unknown MultipeerConnectivity failure"),
        }
    }

    /// The crate error these fields stand for.
    pub fn into_error(self) -> (e: MultipeerError)
        ensures
            e@ == bridge_error(self.kind, self.domain@, self.code, self.description@),
    {
        if self.kind == BRIDGE_ERROR_INVALID_ARGUMENT {
            MultipeerError::InvalidArgument(self.description)
        } else if self.kind == BRIDGE_ERROR_FRAMEWORK {
            MultipeerError::Framework(FrameworkError::new(self.domain, self.code, self.description))
        } else {
            MultipeerError::OperationFailed(self.description)
        }
    }

    /// The framework error these fields describe, whatever their kind.
    pub fn into_framework_error(self) -> (e: FrameworkError)
        ensures
            e@ == (FrameworkErrorView {
                domain: self.domain@,
                code: self.code,
                description: self.description@,
            }),
    {
        FrameworkError::new(self.domain, self.code, self.description)
    }
}

/// The error of a failed call that reported at most a message: the message,
/// or a generic one when there is none.
pub fn last_error(message: Option<String>) -> (e: MultipeerError)
    ensures
        e@ == MultipeerErrorView::OperationFailed(
            match message {
                Some(m) => m@,
                None => unknown_failure_message(),
            },
        ),
{
    match message {
        Some(m) => MultipeerError::OperationFailed(m),
        None => MultipeerError::OperationFailed(owned("unknown MultipeerConnectivity failure")),
    }
}

} // verus!
