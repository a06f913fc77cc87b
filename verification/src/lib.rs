//! Verified core of the MultipeerConnectivity bindings: the checks made on
//! arguments before they reach the framework, error values and codes,
//! session enumerations, the kinds of delegate events, delegate builders,
//! and the reference count of contexts shared with the bridge.
pub mod advertiser;
pub mod advertiser_assistant;
pub mod discovery;
pub mod error;
pub mod events;
pub mod json;
pub mod refcount;
pub mod session;
pub mod text;
pub mod validation;

pub use advertiser::{respond_to_invitation, InvitationResponse};
pub use advertiser_assistant::{AdvertiserAssistantDelegate, AssistantHandler};
pub use discovery::DiscoveryInfo;
pub use error::{BridgeErrorInfo, FrameworkError, MCErrorCode, MultipeerError};
pub use events::{AdvertiserEventKind, BrowserEventKind, SessionEventKind};
pub use refcount::RefCount;
pub use session::{EncryptionPreference, SessionSendDataMode, SessionState};
pub use validation::{
    c_string, discovery_info_cstring, display_name_cstring, resource_path_cstring,
    service_type_cstring, CStringField,
};
