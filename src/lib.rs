//! Interaction core of a peer-to-peer chat client: message content
//! enrichment, link previews, reply drafts, conversation start and
//! friend removal, over a shared application state.

pub mod content;
pub mod preview;
pub mod state;
pub mod friend;
pub mod reply;
pub mod msg;
pub mod page;
