//! Building a preview from the tags found on a fetched page.
use vstd::prelude::*;
use crate::preview::{SiteMeta, SiteMetaView};

verus! {

/// The tags of a page that a preview is built from, each where present.
pub struct PageTags {
    /// `og:title`
    pub og_title: Option<String>,
    /// The `<title>` element.
    pub title: Option<String>,
    /// `og:description`
    pub og_description: Option<String>,
    /// The standard `description` meta tag.
    pub description: Option<String>,
    /// The page's icon link.
    pub icon: Option<String>,
}

pub ghost struct PageTagsView {
    pub og_title: Option<Seq<char>>,
    pub title: Option<Seq<char>>,
    pub og_description: Option<Seq<char>>,
    pub description: Option<Seq<char>>,
    pub icon: Option<Seq<char>>,
}

impl View for PageTags {
    type V = PageTagsView;

    open spec fn view(&self) -> PageTagsView {
        PageTagsView {
            og_title: opt_view(self.og_title),
            title: opt_view(self.title),
            og_description: opt_view(self.og_description),
            description: opt_view(self.description),
            icon: opt_view(self.icon),
        }
    }
}

/// The view of an optional string.
pub open spec fn opt_view(s: Option<String>) -> Option<Seq<char>> {
    match s {
        Some(v) => Some(v@),
        None => None,
    }
}

/// The first of two optional texts that is present, else a fallback.
pub open spec fn first_of(a: Option<Seq<char>>, b: Option<Seq<char>>, fallback: Seq<char>) -> Seq<char> {
    match a {
        Some(x) => x,
        None => match b {
            Some(y) => y,
            None => fallback,
        },
    }
}

/// Where a URL's host starts: after the first `://`, or at the start when
/// there is none.
pub open spec fn host_start(u: Seq<char>, i: int) -> int
    decreases u.len() - i,
{
    if i < 0 || i + 3 > u.len() {
        0
    } else if u[i] == ':' && u[i + 1] == '/' && u[i + 2] == '/' {
        i + 3
    } else {
        host_start(u, i + 1)
    }
}

/// Whether a character ends a host: path, query, fragment or port.
pub open spec fn ends_host(c: char) -> bool {
    c == '/' || c == '?' || c == '#' || c == ':'
}

/// The characters from `i` on up to the first that ends a host.
pub open spec fn host_from(u: Seq<char>, i: int) -> Seq<char>
    decreases u.len() - i,
{
    if i < 0 || i >= u.len() || ends_host(u[i]) {
        Seq::empty()
    } else {
        seq![u[i]] + host_from(u, i + 1)
    }
}

/// The host of a URL, scheme and path left off.
pub open spec fn host_of(u: Seq<char>) -> Seq<char> {
    host_from(u, host_start(u, 0))
}

/// The preview built from a page's tags: title from `og:title`, else the
/// `<title>`, else the host; description from `og:description`, else the
/// `description` tag, else empty; the icon as found; the requested URL.
pub open spec fn meta_of_tags(url: Seq<char>, tags: PageTagsView) -> SiteMetaView {
    SiteMetaView {
        title: first_of(tags.og_title, tags.title, host_of(url)),
        description: first_of(tags.og_description, tags.description, Seq::empty()),
        favicon: tags.icon,
        url: url,
    }
}

/// The host of a URL, scheme and path left off.
pub fn host(url: &str) -> (r: String)
    ensures
        r@ == host_of(url@),
{
    let n = url.unicode_len();
    let mut start: usize = 0;
    let mut i: usize = 0;
    let mut found = false;
    while !found && n >= 3 && i <= n - 3
        invariant
            n == url@.len(),
            i <= n,
            !found ==> start == 0 && host_start(url@, 0) == host_start(url@, i as int),
            found ==> start == host_start(url@, 0) && start <= n,
        decreases n - i + (if found { 0int } else { 1int }),
    {
        if url.get_char(i) == ':' && url.get_char(i + 1) == '/' && url.get_char(i + 2) == '/' {
            start = i + 3;
            found = true;
        } else {
            i += 1;
        }
    }
    let mut end: usize = start;
    while end < n && !is_host_end(url.get_char(end))
        invariant
            n == url@.len(),
            start <= end <= n,
            start == host_start(url@, 0),
            host_from(url@, start as int) =~= url@.subrange(start as int, end as int) + host_from(url@, end as int),
        decreases n - end,
    {
        proof {
            assert(url@.subrange(start as int, end + 1) =~= url@.subrange(start as int, end as int) + seq![url@[end as int]]);
        }
        end += 1;
    }
    url.substring_char(start, end).to_owned()
}

fn is_host_end(c: char) -> (r: bool)
    ensures
        r == ends_host(c),
{
    c == '/' || c == '?' || c == '#' || c == ':'
}

fn pick(a: Option<String>, b: Option<String>, fallback: String) -> (r: String)
    ensures
        r@ == first_of(opt_view(a), opt_view(b), fallback@),
{
    match a {
        Some(x) => x,
        None => match b {
            Some(y) => y,
            None => fallback,
        },
    }
}

/// Builds the preview of a fetched page from its tags, falling back field
/// by field to the `<title>` and to the URL's host.
pub fn meta_from_tags(url: &str, tags: PageTags) -> (r: SiteMeta)
    ensures
        r@ == meta_of_tags(url@, tags@),
{
    let PageTags { og_title, title, og_description, description, icon } = tags;
    let title = pick(og_title, title, host(url));
    let description = pick(og_description, description, String::new());
    SiteMeta { title, description, favicon: icon, url: url.to_owned() }
}

/// Relies on str::chars, collected into a Vec: the characters of the text
/// in order.
#[verifier::external_body]
fn chars_of(s: &str) -> (r: Vec<char>)
    ensures
        r@ == s@,
{
    s.chars().collect()
}

/// Relies on String::push: the character is appended.
#[verifier::external_body]
fn push_char(s: &mut String, c: char)
    ensures
        final(s)@ == old(s)@.push(c),
{
    s.push(c)
}

/// Whether `p` occurs in `h` at index `i`.
pub open spec fn occurs_at(h: Seq<char>, p: Seq<char>, i: int) -> bool {
    0 <= i && i + p.len() <= h.len() && h.subrange(i, i + p.len()) == p
}

/// The first index from `i` on at which `p` occurs in `h`.
pub open spec fn find_from(h: Seq<char>, p: Seq<char>, i: int) -> Option<int>
    decreases h.len() + 1 - i,
{
    if i < 0 || i + p.len() > h.len() {
        None
    } else if occurs_at(h, p, i) {
        Some(i)
    } else {
        find_from(h, p, i + 1)
    }
}

proof fn lemma_found_occurs(h: Seq<char>, p: Seq<char>, i: int)
    ensures
        match find_from(h, p, i) {
            Some(k) => i <= k && occurs_at(h, p, k),
            None => true,
        },
    decreases h.len() + 1 - i,
{
    if i >= 0 && i + p.len() <= h.len() && !occurs_at(h, p, i) {
        lemma_found_occurs(h, p, i + 1);
    }
}

/// The text after the first `open`, up to the first `close` after it.
pub open spec fn between_of(h: Seq<char>, open: Seq<char>, close: Seq<char>) -> Option<Seq<char>> {
    match find_from(h, open, 0) {
        None => None,
        Some(a) => match find_from(h, close, a + open.len()) {
            None => None,
            Some(b) => Some(h.subrange(a + open.len(), b)),
        },
    }
}

fn occurs(h: &Vec<char>, p: &Vec<char>, i: usize) -> (r: bool)
    requires
        i + p@.len() <= h@.len(),
    ensures
        r == occurs_at(h@, p@, i as int),
{
    let n = h.len();
    let mut j: usize = 0;
    while j < p.len()
        invariant
            n == h@.len(),
            i + p@.len() <= h@.len(),
            j <= p@.len(),
            h@.subrange(i as int, i + j) =~= p@.subrange(0, j as int),
        decreases p@.len() - j,
    {
        if h[i + j] != p[j] {
            proof {
                assert(h@.subrange(i as int, i + p@.len())[j as int] != p@[j as int]);
            }
            return false;
        }
        j += 1;
    }
    proof {
        assert(p@.subrange(0, p@.len() as int) =~= p@);
    }
    true
}

fn find(h: &Vec<char>, p: &Vec<char>, from: usize) -> (r: Option<usize>)
    ensures
        match r {
            Some(i) => find_from(h@, p@, from as int) == Some(i as int),
            None => find_from(h@, p@, from as int) is None,
        },
{
    if p.len() > h.len() {
        return None;
    }
    let n = h.len();
    let last = n - p.len();
    let mut i: usize = from;
    while i <= last
        invariant
            n == h@.len(),
            last + p@.len() == h@.len(),
            from <= i,
            find_from(h@, p@, from as int) == find_from(h@, p@, i as int),
        decreases last + 1 - i,
    {
        if occurs(h, p, i) {
            return Some(i);
        }
        if i == last {
            return None;
        }
        i += 1;
    }
    None
}

/// The text after the first `open` in `h`, up to the first `close` after it.
pub fn between(h: &Vec<char>, open: &str, close: &str) -> (r: Option<String>)
    ensures
        opt_view(r) == between_of(h@, open@, close@),
{
    let n = h.len();
    let open = chars_of(open);
    let close = chars_of(close);
    proof {
        lemma_found_occurs(h@, open@, 0);
    }
    match find(h, &open, 0) {
        None => None,
        Some(a) => {
            proof {
                lemma_found_occurs(h@, close@, a + open@.len());
            }
            let start = a + open.len();
            match find(h, &close, start) {
                None => None,
                Some(b) => {
                    let mut out = String::new();
                    let mut k: usize = start;
                    while k < b
                        invariant
                            start <= k <= b <= h@.len(),
                            out@ =~= h@.subrange(start as int, k as int),
                        decreases b - k,
                    {
                        push_char(&mut out, h[k]);
                        k += 1;
                    }
                    Some(out)
                },
            }
        },
    }
}

/// The tags of a page, each read as the text between two markers.
pub open spec fn tags_of(html: Seq<char>) -> PageTagsView {
    PageTagsView {
        og_title: between_of(html, "property=\"og:title\" content=\""@, "\""@),
        title: between_of(html, "<title>"@, "</title>"@),
        og_description: between_of(html, "property=\"og:description\" content=\""@, "\""@),
        description: between_of(html, "name=\"description\" content=\""@, "\""@),
        icon: between_of(html, "rel=\"icon\" href=\""@, "\""@),
    }
}

/// Reads the preview tags of a page's HTML.
pub fn page_tags(html: &str) -> (r: PageTags)
    ensures
        r@ == tags_of(html@),
{
    let h = chars_of(html);
    PageTags {
        og_title: between(&h, "property=\"og:title\" content=\"", "\""),
        title: between(&h, "<title>", "</title>"),
        og_description: between(&h, "property=\"og:description\" content=\"", "\""),
        description: between(&h, "name=\"description\" content=\"", "\""),
        icon: between(&h, "rel=\"icon\" href=\"", "\""),
    }
}

/// The preview of a fetched page, from its URL and its HTML.
pub fn meta_from_page(url: &str, html: &str) -> (r: SiteMeta)
    ensures
        r@ == meta_of_tags(url@, tags_of(html@)),
{
    meta_from_tags(url, page_tags(html))
}

} // verus!
