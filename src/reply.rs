//! The reply composer of a message's popout panel.
use vstd::prelude::*;

verus! {

/// Whether a participant is composing: an event, never stored.
#[derive(Clone, Copy, Debug, PartialEq, Eq, Structural)]
pub enum TypingSignal {
    Typing,
    NotTyping,
}

/// The draft of a reply, and whether its panel is open.
pub struct ReplyComposer {
    draft: String,
    open: bool,
}

pub ghost struct ComposerView {
    pub draft: Seq<char>,
    pub open: bool,
}

impl View for ReplyComposer {
    type V = ComposerView;

    closed spec fn view(&self) -> ComposerView {
        ComposerView { draft: self.draft@, open: self.open }
    }
}

/// The composer after an edit that leaves `text` in the input.
pub open spec fn input_step(c: ComposerView, text: Seq<char>) -> ComposerView {
    ComposerView { draft: text, ..c }
}

/// The composer after a submit, and the text handed to the reply handler.
pub open spec fn submit_step(c: ComposerView) -> (ComposerView, Seq<char>) {
    (ComposerView { draft: Seq::empty(), open: false }, c.draft)
}

/// A composer with an empty draft and its panel closed.
pub open spec fn closed_empty() -> ComposerView {
    ComposerView { draft: Seq::empty(), open: false }
}

impl ReplyComposer {
    /// An empty draft, panel closed.
    pub fn new() -> (r: ReplyComposer)
        ensures
            r@ == closed_empty(),
    {
        ReplyComposer { draft: String::new(), open: false }
    }

    /// The current draft.
    pub fn draft(&self) -> (r: &String)
        ensures
            r@ == self@.draft,
    {
        &self.draft
    }

    /// Whether the panel is open.
    pub fn is_open(&self) -> (r: bool)
        ensures
            r == self@.open,
    {
        self.open
    }

    /// Opens the panel; the draft is kept.
    pub fn open(&mut self)
        ensures
            final(self)@ == (ComposerView { open: true, ..old(self)@ }),
    {
        self.open = true;
    }

    /// An edit: the draft becomes the input's text, and a typing signal is
    /// to be sent.
    pub fn on_input(&mut self, text: String) -> (r: TypingSignal)
        ensures
            final(self)@ == input_step(old(self)@, text@),
            r == TypingSignal::Typing,
    {
        self.draft = text;
        TypingSignal::Typing
    }

    /// A submit, from either trigger: returns the whole draft, to be handed
    /// once to the reply handler (an empty draft is handed on as it is),
    /// empties the draft and closes the panel.
    pub fn on_submit(&mut self) -> (r: String)
        ensures
            (final(self)@, r@) == submit_step(old(self)@),
    {
        let text = self.draft.clone();
        self.draft = String::new();
        self.open = false;
        text
    }

    /// Closes the panel without replying; the draft is discarded.
    pub fn dismiss(&mut self)
        ensures
            final(self)@ == closed_empty(),
    {
        self.draft = String::new();
        self.open = false;
    }
}

/// Typing a text and then submitting hands exactly that text to the reply
/// handler, and leaves the draft empty and the panel closed.
pub proof fn lemma_reply_round_trip(c: ComposerView, text: Seq<char>)
    ensures
        submit_step(input_step(c, text)) == (closed_empty(), text),
{
}

} // verus!
