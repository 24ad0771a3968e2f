//! Link previews, memoised per distinct message text.
//!
//! The cache decides; the caller does the network work. `request` says
//! whether a preview can be shown now, whether a fetch must be started for
//! the first link, or whether one is already in flight. `complete` records
//! what the fetch brought back.
use vstd::prelude::*;
use crate::content::{links_of, find_first_link};

verus! {

/// What is known of a page: title, description, favicon and address.
pub struct SiteMeta {
    pub title: String,
    pub description: String,
    pub favicon: Option<String>,
    pub url: String,
}

pub ghost struct SiteMetaView {
    pub title: Seq<char>,
    pub description: Seq<char>,
    pub favicon: Option<Seq<char>>,
    pub url: Seq<char>,
}

impl View for SiteMeta {
    type V = SiteMetaView;

    open spec fn view(&self) -> SiteMetaView {
        SiteMetaView {
            title: self.title@,
            description: self.description@,
            favicon: match self.favicon {
                Some(f) => Some(f@),
                None => None,
            },
            url: self.url@,
        }
    }
}

/// The empty preview: nothing to show.
pub open spec fn empty_meta() -> SiteMetaView {
    SiteMetaView { title: Seq::empty(), description: Seq::empty(), favicon: None, url: Seq::empty() }
}

impl SiteMeta {
    /// The empty preview.
    pub fn empty() -> (r: SiteMeta)
        ensures
            r@ == empty_meta(),
    {
        SiteMeta { title: String::new(), description: String::new(), favicon: None, url: String::new() }
    }

    /// A copy with the same contents.
    pub fn duplicate(&self) -> (r: SiteMeta)
        ensures
            r@ == self@,
    {
        let favicon = match &self.favicon {
            Some(f) => Some(f.clone()),
            None => None,
        };
        SiteMeta {
            title: self.title.clone(),
            description: self.description.clone(),
            favicon,
            url: self.url.clone(),
        }
    }
}

impl Default for SiteMeta {
    fn default() -> (r: SiteMeta)
        ensures
            r@ == empty_meta(),
    {
        SiteMeta::empty()
    }
}

/// Where the preview of one text stands.
pub enum FetchState {
    Pending,
    Ready(SiteMeta),
    Failed,
}

pub ghost enum FetchStateView {
    Pending,
    Ready(SiteMetaView),
    Failed,
}

impl View for FetchState {
    type V = FetchStateView;

    open spec fn view(&self) -> FetchStateView {
        match self {
            FetchState::Pending => FetchStateView::Pending,
            FetchState::Ready(m) => FetchStateView::Ready(m@),
            FetchState::Failed => FetchStateView::Failed,
        }
    }
}

/// What a caller is to do for one request.
pub enum PreviewAction {
    /// Show this preview now.
    Show(SiteMeta),
    /// Fetch this address, then report the result with `complete`.
    Fetch(String),
    /// A fetch for this text is in flight: show nothing yet.
    Wait,
}

pub ghost enum PreviewStep {
    Show(SiteMetaView),
    Fetch(Seq<char>),
    Wait,
}

impl View for PreviewAction {
    type V = PreviewStep;

    open spec fn view(&self) -> PreviewStep {
        match self {
            PreviewAction::Show(m) => PreviewStep::Show(m@),
            PreviewAction::Fetch(u) => PreviewStep::Fetch(u@),
            PreviewAction::Wait => PreviewStep::Wait,
        }
    }
}

pub type PreviewMap = Map<Seq<char>, FetchStateView>;

/// One request for the preview of a text: the new cache and the action.
pub open spec fn request_step(c: PreviewMap, text: Seq<char>) -> (PreviewMap, PreviewStep) {
    let links = links_of(text);
    if links.len() == 0 {
        (c, PreviewStep::Show(empty_meta()))
    } else if !c.contains_key(text) {
        (c.insert(text, FetchStateView::Pending), PreviewStep::Fetch(links[0]))
    } else {
        match c[text] {
            FetchStateView::Pending => (c, PreviewStep::Wait),
            FetchStateView::Ready(m) => (c, PreviewStep::Show(m)),
            FetchStateView::Failed => (c, PreviewStep::Show(empty_meta())),
        }
    }
}

/// The outcome of a fetch for a text: recorded only where that text's
/// fetch is pending, ignored otherwise.
pub open spec fn complete_step(c: PreviewMap, text: Seq<char>, fetched: Option<SiteMetaView>) -> PreviewMap {
    if c.contains_key(text) && c[text] == FetchStateView::Pending {
        match fetched {
            Some(m) => c.insert(text, FetchStateView::Ready(m)),
            None => c.insert(text, FetchStateView::Failed),
        }
    } else {
        c
    }
}

/// What a fetch result shows: the metadata, or the empty preview on failure.
pub open spec fn shown(fetched: Option<SiteMetaView>) -> SiteMetaView {
    match fetched {
        Some(m) => m,
        None => empty_meta(),
    }
}

pub open spec fn meta_view(m: Option<SiteMeta>) -> Option<SiteMetaView> {
    match m {
        Some(v) => Some(v@),
        None => None,
    }
}

/// A text without links shows the empty preview, starts no fetch and
/// leaves the cache as it was.
pub proof fn lemma_no_links_no_fetch(c: PreviewMap, text: Seq<char>)
    requires
        links_of(text).len() == 0,
    ensures
        request_step(c, text) == (c, PreviewStep::Show(empty_meta())),
{
}

/// Two requests for the same text start at most one fetch. Where the first
/// starts it, the second waits; once the fetch has completed, every request
/// for that text shows its result and starts none. Where the first starts
/// none, both observe the same action.
pub proof fn lemma_one_fetch_per_text(c: PreviewMap, text: Seq<char>, fetched: Option<SiteMetaView>)
    ensures
        ({
            let (c1, a1) = request_step(c, text);
            let (c2, a2) = request_step(c1, text);
            let c3 = complete_step(c2, text, fetched);
            &&& !(a1 is Fetch && a2 is Fetch)
            &&& a1 is Fetch ==> a2 == PreviewStep::Wait && c2 == c1
                && request_step(c3, text) == (c3, PreviewStep::Show(shown(fetched)))
            &&& !(a1 is Fetch) ==> a2 == a1 && c1 == c
        }),
{
    let (c1, a1) = request_step(c, text);
    if a1 is Fetch {
        assert(c1.contains_key(text) && c1[text] == FetchStateView::Pending);
    }
}

struct Entry {
    key: String,
    state: FetchState,
}

/// The preview cache, keyed by the exact message text.
pub struct PreviewCache {
    entries: Vec<Entry>,
    model: Ghost<PreviewMap>,
}

impl View for PreviewCache {
    type V = PreviewMap;

    closed spec fn view(&self) -> PreviewMap {
        self.model@
    }
}

impl PreviewCache {
    /// Keys are distinct, and the entries hold exactly the model.
    pub closed spec fn wf(&self) -> bool {
        &&& forall|i: int, j: int|
            0 <= i < j < self.entries@.len() ==> self.entries@[i].key@ != self.entries@[j].key@
        &&& forall|i: int|
            0 <= i < self.entries@.len() ==> #[trigger] self.model@.contains_key(self.entries@[i].key@)
                && self.model@[self.entries@[i].key@] == self.entries@[i].state@
        &&& forall|k: Seq<char>|
            #[trigger] self.model@.contains_key(k) ==> exists|i: int|
                0 <= i < self.entries@.len() && self.entries@[i].key@ == k
    }

    /// An empty cache.
    pub fn new() -> (r: PreviewCache)
        ensures
            r.wf(),
            r@ == Map::<Seq<char>, FetchStateView>::empty(),
    {
        PreviewCache { entries: Vec::new(), model: Ghost(Map::empty()) }
    }

    /// The index of the entry for a text, if there is one.
    fn find(&self, text: &String) -> (r: Option<usize>)
        requires
            self.wf(),
        ensures
            match r {
                Some(i) => i < self.entries@.len() && self.entries@[i as int].key@ == text@
                    && self@.contains_key(text@) && self@[text@] == self.entries@[i as int].state@,
                None => !self@.contains_key(text@),
            },
    {
        let mut i: usize = 0;
        while i < self.entries.len()
            invariant
                self.wf(),
                i <= self.entries@.len(),
                forall|j: int| 0 <= j < i ==> self.entries@[j].key@ != text@,
            decreases self.entries@.len() - i,
        {
            if self.entries[i].key == *text {
                proof {
                    assert(self.model@.contains_key(self.entries@[i as int].key@));
                }
                return Some(i);
            }
            i += 1;
        }
        None
    }

    /// The state of the preview for a text, if one was requested.
    pub fn state_of(&self, text: &str) -> (r: Option<&FetchState>)
        requires
            self.wf(),
        ensures
            match r {
                Some(s) => self@.contains_key(text@) && self@[text@] == s@,
                None => !self@.contains_key(text@),
            },
    {
        let key = text.to_owned();
        match self.find(&key) {
            Some(i) => Some(&self.entries[i].state),
            None => None,
        }
    }

    /// Asks for the preview of a message text. A text without links shows
    /// the empty preview and starts no fetch. The first request for a text
    /// with links starts one fetch, of its first link; later requests wait
    /// for it, then show what it brought (the empty preview if it failed).
    pub fn request(&mut self, text: &str) -> (r: PreviewAction)
        requires
            old(self).wf(),
        ensures
            final(self).wf(),
            (final(self)@, r@) == request_step(old(self)@, text@),
    {
        let first = find_first_link(text);
        match first {
            None => PreviewAction::Show(SiteMeta::empty()),
            Some(link) => match self.find(&text.to_owned()) {
                None => {
                    let ghost old_model = self.model@;
                    let ghost old_entries = self.entries@;
                    let ghost k = text@;
                    self.entries.push(Entry { key: text.to_owned(), state: FetchState::Pending });
                    self.model = Ghost(old_model.insert(k, FetchStateView::Pending));
                    proof {
                        let n = self.entries@.len() - 1;
                        assert(self.entries@[n].key@ == k);
                        assert forall|i: int| 0 <= i < n implies #[trigger] self.entries@[i] == old_entries[i] by {}
                        assert forall|kk: Seq<char>| #[trigger] self.model@.contains_key(kk) implies
                            exists|i: int| 0 <= i < self.entries@.len() && self.entries@[i].key@ == kk by {
                            if kk != k {
                                assert(old_model.contains_key(kk));
                                let i = choose|i: int| 0 <= i < old_entries.len() && old_entries[i].key@ == kk;
                                assert(self.entries@[i].key@ == kk);
                            } else {
                                assert(self.entries@[n].key@ == kk);
                            }
                        }
                    }
                    PreviewAction::Fetch(link)
                },
                Some(i) => match &self.entries[i].state {
                    FetchState::Pending => PreviewAction::Wait,
                    FetchState::Ready(m) => PreviewAction::Show(m.duplicate()),
                    FetchState::Failed => PreviewAction::Show(SiteMeta::empty()),
                },
            },
        }
    }

    /// Records what the fetch for a text brought back (`None` when the
    /// network or the parse failed). A result for a text whose fetch is
    /// not pending is discarded.
    pub fn complete(&mut self, text: &str, fetched: Option<SiteMeta>)
        requires
            old(self).wf(),
        ensures
            final(self).wf(),
            final(self)@ == complete_step(old(self)@, text@, meta_view(fetched)),
    {
        match self.find(&text.to_owned()) {
            None => {},
            Some(i) => {
                let pending = match &self.entries[i].state {
                    FetchState::Pending => true,
                    _ => false,
                };
                if pending {
                    let state = match fetched {
                        Some(m) => FetchState::Ready(m),
                        None => FetchState::Failed,
                    };
                    let ghost old_model = self.model@;
                    let ghost old_entries = self.entries@;
                    let ghost k = text@;
                    let ghost sv = state@;
                    let key = self.entries[i].key.clone();
                    self.entries.set(i, Entry { key, state });
                    self.model = Ghost(old_model.insert(k, sv));
                    proof {
                        assert forall|j: int| 0 <= j < self.entries@.len() && j != i implies
                            #[trigger] self.entries@[j] == old_entries[j] by {}
                        assert forall|j: int| 0 <= j < self.entries@.len() implies
                            #[trigger] self.entries@[j].key@ == old_entries[j].key@ by {}
                        assert forall|j: int| 0 <= j < self.entries@.len() implies
                            #[trigger] self.model@.contains_key(self.entries@[j].key@)
                            && self.model@[self.entries@[j].key@] == self.entries@[j].state@ by {
                            if j != i {
                                assert(old_model.contains_key(old_entries[j].key@));
                                assert(old_entries[j].key@ != k);
                            }
                        }
                        assert forall|kk: Seq<char>| #[trigger] self.model@.contains_key(kk) implies
                            exists|j: int| 0 <= j < self.entries@.len() && self.entries@[j].key@ == kk by {
                            if kk != k {
                                assert(old_model.contains_key(kk));
                                let j = choose|j: int| 0 <= j < old_entries.len() && old_entries[j].key@ == kk;
                                assert(self.entries@[j].key@ == kk);
                            } else {
                                assert(self.entries@[i as int].key@ == kk);
                            }
                        }
                    }
                }
            },
        }
    }
}

} // verus!
