use multipeerconnectivity::{
    respond_to_invitation, AdvertiserAssistantDelegate, AssistantHandler, InvitationResponse,
    RefCount,
};

#[test]
fn assistant_delegate_registers_callbacks() {
    let empty = AdvertiserAssistantDelegate::new();
    assert!(!empty.has_will_present_invitation());
    assert!(!empty.has_did_dismiss_invitation());

    let will_only = AdvertiserAssistantDelegate::new().on_will_present_invitation(|| {});
    assert!(will_only.has_will_present_invitation());
    assert!(!will_only.has_did_dismiss_invitation());

    let both = AdvertiserAssistantDelegate::new()
        .on_will_present_invitation(|| {})
        .on_did_dismiss_invitation(|| {});
    assert!(both.has_will_present_invitation());
    assert!(both.has_did_dismiss_invitation());

    let calls = std::sync::Arc::new(std::sync::atomic::AtomicUsize::new(0));
    let seen = calls.clone();
    let (will, did) = AdvertiserAssistantDelegate::new()
        .on_did_dismiss_invitation(move || {
            seen.fetch_add(1, std::sync::atomic::Ordering::SeqCst);
        })
        .into_handlers();
    assert!(will.is_none());
    if let Some(mut callback) = did {
        callback.invoke();
        callback.invoke();
    }
    assert_eq!(calls.load(std::sync::atomic::Ordering::SeqCst), 2);
}

#[test]
fn invitations_join_the_session_only_when_accepted() {
    assert!(matches!(respond_to_invitation(true, Some(5)), InvitationResponse::Accept(5)));
    assert!(matches!(respond_to_invitation(false, Some(5)), InvitationResponse::Decline));
    assert!(matches!(respond_to_invitation::<u8>(true, None), InvitationResponse::Decline));
    assert!(matches!(respond_to_invitation::<u8>(false, None), InvitationResponse::Decline));
}

#[test]
fn the_last_release_frees_the_context() {
    let mut count = RefCount::new();
    count.retain();
    count.retain();
    assert!(!count.release());
    assert!(!count.release());
    assert!(count.release());

    let mut single = RefCount::new();
    assert!(single.release());
}
