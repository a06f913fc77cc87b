//! How an advertiser answers an invitation.
use vstd::prelude::*;

verus! {

/// How an advertiser handles an invitation: decline it, or accept it into a
/// session.
pub enum InvitationResponse<S> {
    /// Declines the invitation.
    Decline,
    /// Accepts the invitation with the given session.
    Accept(S),
}

/// The answer of a delegate installed with a yes-or-no invitation callback:
/// an invitation the callback accepts joins `session`, and is declined when
/// the callback refuses it or no session was given.
pub fn respond_to_invitation<S>(accepted: bool, session: Option<S>) -> (r: InvitationResponse<S>)
    ensures
        match r {
            InvitationResponse::Accept(s) => accepted && session == Some(s),
            InvitationResponse::Decline => !accepted || session is None,
        },
{
    if accepted {
        match session {
            Some(s) => InvitationResponse::Accept(s),
            None => InvitationResponse::Decline,
        }
    } else {
        InvitationResponse::Decline
    }
}

} // verus!
