//! Session enumerations, with their raw framework values, and the checks
//! that session operations make on their arguments and on the counts that
//! the framework's streams report.
use vstd::prelude::*;
use crate::error::MultipeerError;
use crate::text::owned;

verus! {

/// How `Session::send` delivers data.
#[derive(Debug, Clone, Copy, PartialEq, Eq, Structural)]
pub enum SessionSendDataMode {
    /// Delivered in order, retransmitted when lost.
    Reliable,
    /// Sent once, with no delivery guarantee.
    Unreliable,
}

impl SessionSendDataMode {
    /// The framework's raw value of a mode.
    pub open spec fn spec_as_raw(self) -> i32 {
        match self {
            SessionSendDataMode::Reliable => 0,
            SessionSendDataMode::Unreliable => 1,
        }
    }

    /// Converts this mode to the framework's raw value.
    #[verifier::when_used_as_spec(spec_as_raw)]
    pub fn as_raw(self) -> (value: i32)
        ensures
            value == self.spec_as_raw(),
            self is Reliable ==> value == 0,
            self is Unreliable ==> value == 1,
    {
        match self {
            SessionSendDataMode::Reliable => 0,
            SessionSendDataMode::Unreliable => 1,
        }
    }
}

/// A session's encryption preference.
#[derive(Debug, Clone, Copy, PartialEq, Eq, Structural)]
pub enum EncryptionPreference {
    /// Encryption is used when the peer supports it.
    Optional,
    /// Every connection is encrypted.
    Required,
    /// Encryption is off.
    Disabled,
}

impl EncryptionPreference {
    /// The framework's raw value of a preference.
    pub open spec fn spec_as_raw(self) -> i32 {
        match self {
            EncryptionPreference::Optional => 0,
            EncryptionPreference::Required => 1,
            EncryptionPreference::Disabled => 2,
        }
    }

    /// The preference a raw value stands for; values with no preference of
    /// their own read as `Optional`.
    pub open spec fn spec_from_raw(value: i32) -> EncryptionPreference {
        if value == 1 {
            EncryptionPreference::Required
        } else if value == 2 {
            EncryptionPreference::Disabled
        } else {
            EncryptionPreference::Optional
        }
    }

    /// Converts this preference to the framework's raw value.
    #[verifier::when_used_as_spec(spec_as_raw)]
    pub fn as_raw(self) -> (value: i32)
        ensures
            value == self.spec_as_raw(),
            self is Optional ==> value == 0,
            self is Required ==> value == 1,
            self is Disabled ==> value == 2,
    {
        match self {
            EncryptionPreference::Optional => 0,
            EncryptionPreference::Required => 1,
            EncryptionPreference::Disabled => 2,
        }
    }

    /// Converts the framework's raw value.
    #[verifier::when_used_as_spec(spec_from_raw)]
    pub fn from_raw(value: i32) -> (preference: EncryptionPreference)
        ensures
            preference == EncryptionPreference::spec_from_raw(value),
            value == 1 <==> preference is Required,
            value == 2 <==> preference is Disabled,
            value != 1 && value != 2 <==> preference is Optional,
    {
        match value {
            1 => EncryptionPreference::Required,
            2 => EncryptionPreference::Disabled,
            _ => EncryptionPreference::Optional,
        }
    }
}

impl Default for EncryptionPreference {
    /// `Required`: the other preferences accept unencrypted connections.
    fn default() -> (preference: EncryptionPreference)
        ensures
            preference == EncryptionPreference::Required,
    {
        EncryptionPreference::Required
    }
}

/// The raw values are the framework's constants: `MCEncryptionOptional` is
/// 0, `MCEncryptionRequired` is 1 and `MCEncryptionNone` is 2, and reading
/// a raw value back gives the preference with that constant, any other
/// value reading as `Optional`.
pub proof fn lemma_encryption_preference_raw_values(value: i32)
    ensures
        EncryptionPreference::Optional.spec_as_raw() == 0,
        EncryptionPreference::Required.spec_as_raw() == 1,
        EncryptionPreference::Disabled.spec_as_raw() == 2,
        EncryptionPreference::spec_from_raw(value) == (if value == 1 {
            EncryptionPreference::Required
        } else if value == 2 {
            EncryptionPreference::Disabled
        } else {
            EncryptionPreference::Optional
        }),
{
}

/// The raw values of the send modes are the framework's constants:
/// `MCSessionSendDataReliable` is 0 and `MCSessionSendDataUnreliable` is 1.
pub proof fn lemma_send_mode_raw_values(mode: SessionSendDataMode)
    ensures
        mode.spec_as_raw() == (if mode is Reliable { 0i32 } else { 1i32 }),
{
}

/// The raw session states are the framework's constants: 0 not connected,
/// 1 connecting, 2 connected; any other value is kept as `Unknown`.
pub proof fn lemma_session_state_raw_values(value: i32)
    ensures
        (SessionState::spec_from_raw(value) is NotConnected) <==> value == 0,
        (SessionState::spec_from_raw(value) is Connecting) <==> value == 1,
        (SessionState::spec_from_raw(value) is Connected) <==> value == 2,
        !(0 <= value <= 2) ==> SessionState::spec_from_raw(value) == SessionState::Unknown(value),
{
}

/// A preference survives the trip through its raw value.
pub proof fn lemma_encryption_preference_round_trip(preference: EncryptionPreference)
    ensures
        EncryptionPreference::spec_from_raw(preference.spec_as_raw()) == preference,
{
}

/// The connection state of a peer in a session.
#[derive(Debug, Clone, Copy, PartialEq, Eq, Structural)]
pub enum SessionState {
    /// The peer is not connected.
    NotConnected,
    /// The peer is connecting.
    Connecting,
    /// The peer is connected.
    Connected,
    /// A raw state with no named variant.
    Unknown(i32),
}

impl SessionState {
    /// The state a raw value stands for.
    pub open spec fn spec_from_raw(value: i32) -> SessionState {
        if value == 0 {
            SessionState::NotConnected
        } else if value == 1 {
            SessionState::Connecting
        } else if value == 2 {
            SessionState::Connected
        } else {
            SessionState::Unknown(value)
        }
    }

    /// Converts the framework's raw session state.
    #[verifier::when_used_as_spec(spec_from_raw)]
    pub fn from_raw(value: i32) -> (state: SessionState)
        ensures
            state == SessionState::spec_from_raw(value),
            value == 0 <==> state is NotConnected,
            value == 1 <==> state is Connecting,
            value == 2 <==> state is Connected,
            !(0 <= value <= 2) <==> state == SessionState::Unknown(value),
    {
        match value {
            0 => SessionState::NotConnected,
            1 => SessionState::Connecting,
            2 => SessionState::Connected,
            other => SessionState::Unknown(other),
        }
    }
}

/// Distinct raw values give distinct session states.
pub proof fn lemma_session_state_from_raw_injective(a: i32, b: i32)
    requires
        a != b,
    ensures
        SessionState::spec_from_raw(a) != SessionState::spec_from_raw(b),
{
}

/// The message of the error `Session::send` reports with no destination.
pub open spec fn no_destination_message() -> Seq<char> {
    "send requires at least one destination peer"@
}

/// The check `Session::send` makes before it sends: at least one
/// destination peer.
pub fn check_send_destinations(peer_count: usize) -> (r: Result<(), MultipeerError>)
    ensures
        peer_count > 0 <==> r is Ok,
        r matches Err(e) ==> e@ == crate::error::MultipeerErrorView::InvalidArgument(
            no_destination_message(),
        ),
{
    if peer_count == 0 {
        Err(MultipeerError::InvalidArgument(owned("send requires at least one destination peer")))
    } else {
        Ok(())
    }
}

/// The number of bytes an output stream wrote, from the count the framework
/// returned: `None` when the count is negative, the framework's sign of an
/// error.
pub fn written_byte_count(written: isize) -> (count: Option<usize>)
    ensures
        written >= 0 <==> count is Some,
        count matches Some(n) ==> n == written,
{
    if written >= 0 {
        Some(written as usize)
    } else {
        None
    }
}

/// The bytes an input stream read into `buffer`, from the count the
/// framework returned: `None` when the count is negative, the framework's
/// sign of an error; else the buffer cut to that count.
pub fn bytes_read(buffer: Vec<u8>, read: isize) -> (bytes: Option<Vec<u8>>)
    ensures
        read >= 0 <==> bytes is Some,
        bytes matches Some(b) ==> b@ == buffer@.take(
            if read < buffer@.len() { read as int } else { buffer@.len() as int },
        ),
{
    if read < 0 {
        return None;
    }
    let mut buffer = buffer;
    buffer.truncate(read as usize);
    Some(buffer)
}

} // verus!
