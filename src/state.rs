//! The shared application state, changed only through `dispatch`.
use vstd::prelude::*;

verus! {

/// Identifier of a conversation, as the messaging backend hands it out.
#[derive(Clone, Copy, Debug, PartialEq, Eq, Structural)]
pub struct ConversationId {
    pub id: u128,
}

/// The user interface's language, as a language tag.
pub struct Language {
    pub tag: String,
}

/// Process-wide state read by every component.
pub struct AppState {
    pub active_conversation: Option<ConversationId>,
    pub hide_sidebar: bool,
    pub language: Language,
}

/// The closed set of changes to the shared state.
pub enum Action {
    ChatWith(ConversationId),
    HideSidebar(bool),
    SetLanguage(Language),
}

/// The state after an action: each action changes one field and keeps the
/// others.
pub open spec fn apply(s: AppState, a: Action) -> AppState {
    match a {
        Action::ChatWith(c) => AppState { active_conversation: Some(c), ..s },
        Action::HideSidebar(h) => AppState { hide_sidebar: h, ..s },
        Action::SetLanguage(l) => AppState { language: l, ..s },
    }
}

impl AppState {
    /// The state at process start: no conversation open, sidebar shown,
    /// American English.
    pub fn new() -> (r: AppState)
        ensures
            r.active_conversation is None,
            !r.hide_sidebar,
            r.language.tag@ == "en-US"@,
    {
        AppState {
            active_conversation: None,
            hide_sidebar: false,
            language: Language { tag: String::from_str("en-US") },
        }
    }

    /// Applies one action; no action can fail.
    pub fn dispatch(&mut self, a: Action)
        ensures
            *final(self) == apply(*old(self), a),
    {
        match a {
            Action::ChatWith(c) => self.active_conversation = Some(c),
            Action::HideSidebar(h) => self.hide_sidebar = h,
            Action::SetLanguage(l) => self.language = l,
        }
    }
}

} // verus!
