//! Message text: joining lines, rendering markdown, detecting links.
use vstd::prelude::*;

verus! {

/// The HTML that pulldown-cmark writes for a markdown source, with the
/// strikethrough extension switched on.
pub uninterp spec fn markup_of(source: Seq<char>) -> Seq<char>;

/// The URLs (scheme optional) that linkify's finder detects in a text,
/// in order of first appearance.
pub uninterp spec fn links_of(text: Seq<char>) -> Seq<Seq<char>>;

/// Relies on pulldown_cmark::Parser::new_ext (with
/// Options::ENABLE_STRIKETHROUGH) and pulldown_cmark::html::push_html:
/// the HTML is a function of the source alone, and rendering never fails.
#[verifier::external_body]
fn cmark_html(source: &str) -> (r: String)
    ensures
        r@ == markup_of(source@),
{
    let mut options = pulldown_cmark::Options::empty();
    options.insert(pulldown_cmark::Options::ENABLE_STRIKETHROUGH);
    let parser = pulldown_cmark::Parser::new_ext(source, options);
    let mut out = String::new();
    pulldown_cmark::html::push_html(&mut out, parser);
    out
}

/// Relies on linkify::LinkFinder::links, restricted to URL links with the
/// scheme optional: each detected link is handed out as its text.
#[verifier::external_body]
fn find_links(text: &str) -> (r: Vec<String>)
    ensures
        r@.len() == links_of(text@).len(),
        forall|i: int| 0 <= i < r@.len() ==> #[trigger] r@[i]@ == links_of(text@)[i],
{
    let mut finder = linkify::LinkFinder::new();
    finder.url_must_have_scheme(false);
    finder.kinds(&[linkify::LinkKind::Url]);
    finder.links(text).map(|l| l.as_str().to_string()).collect()
}

/// The views of a sequence of strings.
pub open spec fn views(lines: Seq<String>) -> Seq<Seq<char>> {
    lines.map_values(|s: String| s@)
}

/// Lines joined into one text, with a newline between consecutive lines.
pub open spec fn joined(lines: Seq<Seq<char>>) -> Seq<char>
    decreases lines.len(),
{
    if lines.len() == 0 {
        Seq::empty()
    } else if lines.len() == 1 {
        lines[0]
    } else {
        joined(lines.drop_last()) + seq!['\n'] + lines.last()
    }
}

/// Joins the lines of a message into its one logical text.
pub fn join_lines(lines: &Vec<String>) -> (r: String)
    ensures
        r@ == joined(views(lines@)),
{
    let ghost all = views(lines@);
    let mut out = String::new();
    let mut i: usize = 0;
    while i < lines.len()
        invariant
            i <= lines.len(),
            all == views(lines@),
            out@ == joined(all.subrange(0, i as int)),
        decreases lines.len() - i,
    {
        if i > 0 {
            proof {
                reveal_strlit("\n");
            }
            out.append("\n");
        }
        out.append(lines[i].as_str());
        proof {
            let next = all.subrange(0, i + 1);
            assert(next.drop_last() =~= all.subrange(0, i as int));
            assert(next.last() == lines@[i as int]@);
            if i == 0 {
                assert(out@ =~= joined(next));
            }
        }
        i += 1;
    }
    proof {
        assert(all.subrange(0, lines@.len() as int) =~= all);
    }
    out
}

/// Renders markdown (with strikethrough) to HTML. Malformed markdown
/// degrades to literal text; rendering never fails.
pub fn render(text: &str) -> (r: String)
    ensures
        r@ == markup_of(text@),
{
    cmark_html(text)
}

/// The URL-like substrings of a text, in order of first appearance.
pub fn extract(text: &str) -> (r: Vec<String>)
    ensures
        views(r@) == links_of(text@),
{
    let r = find_links(text);
    proof {
        assert(views(r@) =~= links_of(text@));
    }
    r
}

/// The first link of a text, if it has any.
pub fn find_first_link(text: &str) -> (r: Option<String>)
    ensures
        match r {
            Some(l) => links_of(text@).len() > 0 && l@ == links_of(text@)[0],
            None => links_of(text@).len() == 0,
        },
{
    let mut links = find_links(text);
    if links.len() == 0 {
        None
    } else {
        Some(links.swap_remove(0))
    }
}

/// Whether a text holds at least one link.
pub fn has_links(text: &str) -> (r: bool)
    ensures
        r == (links_of(text@).len() > 0),
{
    let links = find_links(text);
    links.len() > 0
}

} // verus!
