//! The callbacks of an advertiser assistant's delegate, registered with a
//! builder.
use vstd::prelude::*;

verus! {

/// A callback the assistant runs on the framework's queue: any
/// `FnMut() + Send` closure is one.
pub trait AssistantHandler: Send {
    /// Whether the callback may be run now.
    spec fn callable(&self) -> bool;

    /// Runs the callback.
    fn invoke(&mut self)
        requires
            old(self).callable(),
    ;
}

impl<F: FnMut() + Send + 'static> AssistantHandler for F {
    open spec fn callable(&self) -> bool {
        call_requires(*self, ())
    }

    fn invoke(&mut self) {
        self()
    }
}

/// Configures advertiser-assistant delegate callbacks: one called before the
/// invitation UI appears, one after it is dismissed.
pub struct AdvertiserAssistantDelegate {
    on_will_present_invitation: Option<Box<dyn AssistantHandler>>,
    on_did_dismiss_invitation: Option<Box<dyn AssistantHandler>>,
}

impl AdvertiserAssistantDelegate {
    /// The callback run before the invitation UI appears, if registered.
    pub closed spec fn will_present(&self) -> Option<Box<dyn AssistantHandler>> {
        self.on_will_present_invitation
    }

    /// The callback run after the invitation UI is dismissed, if registered.
    pub closed spec fn did_dismiss(&self) -> Option<Box<dyn AssistantHandler>> {
        self.on_did_dismiss_invitation
    }

    /// A delegate with no callback.
    pub fn new() -> (d: AdvertiserAssistantDelegate)
        ensures
            d.will_present() is None,
            d.did_dismiss() is None,
    {
        AdvertiserAssistantDelegate { on_will_present_invitation: None, on_did_dismiss_invitation: None }
    }

    /// Registers the callback run before the invitation UI appears, in place
    /// of any registered before; the other callback is kept.
    pub fn on_will_present_invitation<F>(self, handler: F) -> (d: AdvertiserAssistantDelegate)
        where
            F: FnMut() + Send + 'static,
        ensures
            ({
                let boxed: Box<dyn AssistantHandler> = Box::new(handler);
                d.will_present() == Some(boxed)
            }),
            d.did_dismiss() == self.did_dismiss(),
    {
        AdvertiserAssistantDelegate {
            on_will_present_invitation: Some(Box::new(handler)),
            on_did_dismiss_invitation: self.on_did_dismiss_invitation,
        }
    }

    /// Registers the callback run after the invitation UI is dismissed, in
    /// place of any registered before; the other callback is kept.
    pub fn on_did_dismiss_invitation<F>(self, handler: F) -> (d: AdvertiserAssistantDelegate)
        where
            F: FnMut() + Send + 'static,
        ensures
            d.will_present() == self.will_present(),
            ({
                let boxed: Box<dyn AssistantHandler> = Box::new(handler);
                d.did_dismiss() == Some(boxed)
            }),
    {
        AdvertiserAssistantDelegate {
            on_will_present_invitation: self.on_will_present_invitation,
            on_did_dismiss_invitation: Some(Box::new(handler)),
        }
    }

    /// Whether a callback runs before the invitation UI appears.
    pub fn has_will_present_invitation(&self) -> (b: bool)
        ensures
            b == self.will_present() is Some,
    {
        self.on_will_present_invitation.is_some()
    }

    /// Whether a callback runs after the invitation UI is dismissed.
    pub fn has_did_dismiss_invitation(&self) -> (b: bool)
        ensures
            b == self.did_dismiss() is Some,
    {
        self.on_did_dismiss_invitation.is_some()
    }

    /// The registered callbacks, to install on the assistant.
    pub fn into_handlers(self) -> (h: (
        Option<Box<dyn AssistantHandler>>,
        Option<Box<dyn AssistantHandler>>,
    ))
        ensures
            h == (self.will_present(), self.did_dismiss()),
    {
        (self.on_will_present_invitation, self.on_did_dismiss_invitation)
    }
}

impl Default for AdvertiserAssistantDelegate {
    fn default() -> (d: AdvertiserAssistantDelegate)
        ensures
            d.will_present() is None,
            d.did_dismiss() is None,
    {
        AdvertiserAssistantDelegate::new()
    }
}

} // verus!
