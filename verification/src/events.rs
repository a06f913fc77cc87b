//! The kinds of the delegate events that the bridge's async streams deliver,
//! by the raw kind number each event arrives with.
use vstd::prelude::*;

verus! {

/// The kinds of session delegate events.
#[derive(Debug, Clone, Copy, PartialEq, Eq, Structural)]
pub enum SessionEventKind {
    /// A peer changed state.
    StateChanged,
    /// Data arrived from a peer.
    DataReceived,
    /// A peer opened a stream.
    StreamReceived,
    /// A resource transfer from a peer started.
    ResourceStarted,
    /// A resource transfer from a peer finished.
    ResourceFinished,
}

impl SessionEventKind {
    /// The kind a raw kind number stands for; numbers `0` to `4` name the
    /// kinds in the order above, and other numbers no event.
    pub open spec fn spec_from_raw(kind: i32) -> Option<SessionEventKind> {
        if kind == 0 {
            Some(SessionEventKind::StateChanged)
        } else if kind == 1 {
            Some(SessionEventKind::DataReceived)
        } else if kind == 2 {
            Some(SessionEventKind::StreamReceived)
        } else if kind == 3 {
            Some(SessionEventKind::ResourceStarted)
        } else if kind == 4 {
            Some(SessionEventKind::ResourceFinished)
        } else {
            None
        }
    }

    /// Decodes a raw kind number; an unknown number is no event and is
    /// dropped.
    pub fn from_raw(kind: i32) -> (k: Option<SessionEventKind>)
        ensures
            k == SessionEventKind::spec_from_raw(kind),
    {
        match kind {
            0 => Some(SessionEventKind::StateChanged),
            1 => Some(SessionEventKind::DataReceived),
            2 => Some(SessionEventKind::StreamReceived),
            3 => Some(SessionEventKind::ResourceStarted),
            4 => Some(SessionEventKind::ResourceFinished),
            _ => None,
        }
    }
}

/// The kinds of browser delegate events.
#[derive(Debug, Clone, Copy, PartialEq, Eq, Structural)]
pub enum BrowserEventKind {
    /// A peer was found.
    FoundPeer,
    /// A found peer was lost.
    LostPeer,
    /// Browsing failed to start.
    BrowsingFailed,
}

impl BrowserEventKind {
    /// The kind a raw kind number stands for; `0` to `2` name the kinds in
    /// the order above.
    pub open spec fn spec_from_raw(kind: i32) -> Option<BrowserEventKind> {
        if kind == 0 {
            Some(BrowserEventKind::FoundPeer)
        } else if kind == 1 {
            Some(BrowserEventKind::LostPeer)
        } else if kind == 2 {
            Some(BrowserEventKind::BrowsingFailed)
        } else {
            None
        }
    }

    /// Decodes a raw kind number; an unknown number is no event.
    pub fn from_raw(kind: i32) -> (k: Option<BrowserEventKind>)
        ensures
            k == BrowserEventKind::spec_from_raw(kind),
    {
        match kind {
            0 => Some(BrowserEventKind::FoundPeer),
            1 => Some(BrowserEventKind::LostPeer),
            2 => Some(BrowserEventKind::BrowsingFailed),
            _ => None,
        }
    }
}

/// The kinds of advertiser delegate events.
#[derive(Debug, Clone, Copy, PartialEq, Eq, Structural)]
pub enum AdvertiserEventKind {
    /// An invitation arrived from a peer.
    ReceivedInvitation,
    /// Advertising failed to start.
    AdvertisingFailed,
}

impl AdvertiserEventKind {
    /// The kind a raw kind number stands for; `0` and `1` name the kinds in
    /// the order above.
    pub open spec fn spec_from_raw(kind: i32) -> Option<AdvertiserEventKind> {
        if kind == 0 {
            Some(AdvertiserEventKind::ReceivedInvitation)
        } else if kind == 1 {
            Some(AdvertiserEventKind::AdvertisingFailed)
        } else {
            None
        }
    }

    /// Decodes a raw kind number; an unknown number is no event.
    pub fn from_raw(kind: i32) -> (k: Option<AdvertiserEventKind>)
        ensures
            k == AdvertiserEventKind::spec_from_raw(kind),
    {
        match kind {
            0 => Some(AdvertiserEventKind::ReceivedInvitation),
            1 => Some(AdvertiserEventKind::AdvertisingFailed),
            _ => None,
        }
    }
}

} // verus!
