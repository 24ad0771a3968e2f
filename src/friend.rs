//! Starting a conversation with a friend, and removing a friend.
//!
//! The backend calls are made by the caller, which hands their results in.
use vstd::prelude::*;
use crate::state::{apply, Action, AppState, ConversationId};

verus! {

/// Why the backend refused to create a conversation.
pub enum CreateError {
    /// A conversation with these participants exists already.
    ConversationExist { conversation: ConversationId },
    /// Any other failure, with its description.
    Other(String),
}

/// The conversation that a creation result leads to: the new one, or the
/// one that exists already; none on any other failure.
pub open spec fn conversation_of(created: Result<ConversationId, CreateError>) -> Option<ConversationId> {
    match created {
        Ok(c) => Some(c),
        Err(CreateError::ConversationExist { conversation }) => Some(conversation),
        Err(CreateError::Other(_)) => None,
    }
}

/// Whether a creation result names a given conversation.
pub open spec fn names(created: Result<ConversationId, CreateError>, c: ConversationId) -> bool {
    conversation_of(created) == Some(c)
}

/// Acts on the backend's answer to creating a conversation with a peer.
/// A new conversation, or one that exists already, becomes the active one
/// and is returned, so that the caller opens the chat. Any other failure
/// leaves the state untouched and returns `None`.
pub fn start_conversation(state: &mut AppState, created: Result<ConversationId, CreateError>) -> (r: Option<ConversationId>)
    ensures
        r == conversation_of(created),
        match r {
            Some(c) => *final(state) == apply(*old(state), Action::ChatWith(c)),
            None => *final(state) == *old(state),
        },
{
    let conversation = match created {
        Ok(c) => c,
        Err(CreateError::ConversationExist { conversation }) => conversation,
        Err(CreateError::Other(_)) => {
            return None;
        },
    };
    state.dispatch(Action::ChatWith(conversation));
    Some(conversation)
}

/// Starting a conversation twice with the same peer, where the backend
/// names the same conversation both times (created once, then reported as
/// existing), gives that conversation both times, and the state after the
/// second start is the state after the first.
pub proof fn lemma_start_twice_same_conversation(
    s: AppState,
    c: ConversationId,
    first: Result<ConversationId, CreateError>,
    second: Result<ConversationId, CreateError>,
)
    requires
        names(first, c),
        names(second, c),
    ensures
        conversation_of(first) == conversation_of(second),
        apply(apply(s, Action::ChatWith(c)), Action::ChatWith(c)) == apply(s, Action::ChatWith(c)),
        apply(s, Action::ChatWith(c)).active_conversation == Some(c),
{
}

/// What came of removing a friend.
pub enum RemovalOutcome {
    Removed,
    Failed(String),
}

/// Acts on the backend's answer to removing a friend. A failure is handed
/// back as a value, never raised; the shared state is left as it was
/// either way (an open conversation with that peer stays open).
pub fn remove_friend(state: &mut AppState, removed: Result<(), String>) -> (r: RemovalOutcome)
    ensures
        *final(state) == *old(state),
        match removed {
            Ok(()) => r is Removed,
            Err(e) => r == RemovalOutcome::Failed(e),
        },
{
    match removed {
        Ok(()) => RemovalOutcome::Removed,
        Err(e) => RemovalOutcome::Failed(e),
    }
}

} // verus!
