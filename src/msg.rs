//! A received message, its place in a run of messages from one sender,
//! and what it renders to.
use vstd::prelude::*;
use crate::content::{join_lines, joined, links_of, markup_of, render, extract, views};

verus! {

/// A received message: its lines, when it was sent, and who sent it.
pub struct Message {
    pub lines: Vec<String>,
    pub timestamp: i64,
    pub sender: String,
}

/// Where a message stands in a run of consecutive messages from one
/// sender. A message alone in its run is both first and last.
#[derive(Clone, Copy, Debug, PartialEq, Eq, Structural)]
pub struct Position {
    pub first: bool,
    pub middle: bool,
    pub last: bool,
}

/// The position of the `i`th of a sequence of messages, given their senders.
pub open spec fn position_at(senders: Seq<Seq<char>>, i: int) -> Position {
    let first = i == 0 || senders[i - 1] != senders[i];
    let last = i == senders.len() - 1 || senders[i + 1] != senders[i];
    Position { first, middle: !first && !last, last }
}

/// The positions of a sequence of messages, from the sender of each.
pub fn group_positions(senders: &Vec<String>) -> (r: Vec<Position>)
    ensures
        r@.len() == senders@.len(),
        forall|i: int| 0 <= i < r@.len() ==> #[trigger] r@[i] == position_at(views(senders@), i),
{
    let ghost s = views(senders@);
    let n = senders.len();
    let mut r: Vec<Position> = Vec::new();
    let mut i: usize = 0;
    while i < n
        invariant
            n == senders@.len(),
            s == views(senders@),
            i <= n,
            r@.len() == i,
            forall|j: int| 0 <= j < i ==> #[trigger] r@[j] == position_at(s, j),
        decreases n - i,
    {
        let first = i == 0 || senders[i - 1] != senders[i];
        let last = i + 1 == n || senders[i + 1] != senders[i];
        proof {
            if i > 0 {
                assert(s[i - 1] == senders@[i - 1]@);
            }
            if i + 1 < n {
                assert(s[i + 1] == senders@[i + 1]@);
            }
            assert(s[i as int] == senders@[i as int]@);
        }
        r.push(Position { first, middle: !first && !last, last });
        i += 1;
    }
    r
}

/// How a message is shown, apart from its layout.
pub struct Props {
    pub message: Message,
    pub remote: bool,
    pub position: Position,
}

/// What a message renders to: its one logical text, that text as HTML,
/// the links found in it (detected once), and the side and position it is
/// laid out with.
pub struct RenderedMessage {
    pub text: String,
    pub html: String,
    pub links: Vec<String>,
    pub remote: bool,
    pub position: Position,
}

impl RenderedMessage {
    /// Whether the message holds a link, and so gets a preview.
    pub fn has_links(&self) -> (r: bool)
        ensures
            r == (self.links@.len() > 0),
    {
        self.links.len() > 0
    }
}

/// Renders a message: joins its lines, renders the markdown, finds its
/// links, and passes on its side and position.
#[allow(non_snake_case)]
pub fn Msg(props: &Props) -> (r: RenderedMessage)
    ensures
        r.text@ == joined(views(props.message.lines@)),
        r.html@ == markup_of(r.text@),
        views(r.links@) == links_of(r.text@),
        r.remote == props.remote,
        r.position == props.position,
{
    let text = join_lines(&props.message.lines);
    let html = render(text.as_str());
    let links = extract(text.as_str());
    RenderedMessage { text, html, links, remote: props.remote, position: props.position }
}

} // verus!
