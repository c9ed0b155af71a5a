//! The navigation history: the addresses visited, in order, with a cursor on
//! the one that is shown.

use vstd::prelude::*;
use url::Url;

verus! {

/// The mathematical value of a history: its entries, oldest first, and the
/// cursor, which counts from 1.
pub struct NavView {
    pub entries: Seq<Url>,
    pub position: nat,
}

impl NavView {
    /// There is at least one entry and the cursor is on an entry.
    pub open spec fn wf(self) -> bool {
        1 <= self.position <= self.entries.len()
    }

    /// The history that holds `url` alone.
    pub open spec fn start(url: Url) -> NavView {
        NavView { entries: seq![url], position: 1 }
    }

    /// The entry under the cursor.
    pub open spec fn current(self) -> Url {
        self.entries[self.position - 1]
    }

    /// The history after a visit to `url`: what lay ahead of the cursor is
    /// gone, `url` is the last entry and the cursor is on it.
    pub open spec fn push(self, url: Url) -> NavView {
        NavView {
            entries: self.entries.take(self.position as int).push(url),
            position: self.position + 1,
        }
    }

    /// The history with the cursor one entry back, or unchanged at the first.
    pub open spec fn back(self) -> NavView {
        NavView {
            entries: self.entries,
            position: if self.position > 1 {
                (self.position - 1) as nat
            } else {
                self.position
            },
        }
    }

    /// The history with the cursor one entry on, or unchanged at the last.
    pub open spec fn advance(self) -> NavView {
        NavView {
            entries: self.entries,
            position: if self.position < self.entries.len() {
                self.position + 1
            } else {
                self.position
            },
        }
    }

    /// The history after visits to each of `urls` in turn.
    pub open spec fn push_all(self, urls: Seq<Url>) -> NavView
        decreases urls.len(),
    {
        if urls.len() == 0 {
            self
        } else {
            self.push_all(urls.drop_last()).push(urls.last())
        }
    }
}

/// The addresses visited, with a cursor on the one that is shown. It is kept
/// as the entry under the cursor, the entries behind it, and the entries ahead
/// of it with the nearest one last.
pub struct GemspaceNav {
    behind: Vec<Url>,
    shown: Url,
    ahead: Vec<Url>,
}

impl View for GemspaceNav {
    type V = NavView;

    closed spec fn view(&self) -> NavView {
        NavView {
            entries: self.behind@.push(self.shown) + self.ahead@.reverse(),
            position: (self.behind@.len() + 1) as nat,
        }
    }
}

impl GemspaceNav {
    /// Every history is well formed: it has an entry under its cursor.
    pub proof fn lemma_wf(&self)
        ensures
            self@.wf(),
    {
    }

    /// A history that holds `url` alone.
    pub fn new(url: Url) -> (nav: GemspaceNav)
        ensures
            nav@ == NavView::start(url),
            nav@.wf(),
    {
        let nav = GemspaceNav { behind: Vec::new(), shown: url, ahead: Vec::new() };
        assert(nav@.entries =~= seq![url]);
        nav
    }

    /// Visits `url`: drops the entries ahead of the cursor, appends `url` and
    /// moves the cursor onto it.
    pub fn push(&mut self, url: Url)
        ensures
            final(self)@ == old(self)@.push(url),
            final(self)@.wf(),
    {
        let mut left = url;
        std::mem::swap(&mut self.shown, &mut left);
        self.behind.push(left);
        self.ahead.clear();
        assert(self@.entries =~= old(self)@.push(url).entries);
    }

    /// The address under the cursor.
    pub fn current(&self) -> (url: Url)
        ensures
            self@.wf(),
            url == self@.current(),
    {
        self.shown.clone()
    }

    /// Moves the cursor one entry back; at the first entry nothing changes.
    pub fn back(&mut self)
        ensures
            final(self)@ == old(self)@.back(),
            final(self)@.wf(),
    {
        match self.behind.pop() {
            Some(entry) => {
                let mut left = entry;
                std::mem::swap(&mut self.shown, &mut left);
                self.ahead.push(left);
                assert(self@.entries =~= old(self)@.entries);
            },
            None => {},
        }
    }

    /// Moves the cursor one entry on; at the last entry nothing changes.
    pub fn advance(&mut self)
        ensures
            final(self)@ == old(self)@.advance(),
            final(self)@.wf(),
    {
        match self.ahead.pop() {
            Some(entry) => {
                let mut left = entry;
                std::mem::swap(&mut self.shown, &mut left);
                self.behind.push(left);
                assert(self@.entries =~= old(self)@.entries);
            },
            None => {},
        }
    }
}

/// Every step keeps a history well formed.
pub proof fn lemma_steps_keep_wf(h: NavView, url: Url)
    requires
        h.wf(),
    ensures
        NavView::start(url).wf(),
        h.push(url).wf(),
        h.back().wf(),
        h.advance().wf(),
{
}

/// After a visit the new address is the last entry and the one shown, and
/// the entries up to the old cursor are as they were.
pub proof fn lemma_push_shows_last(h: NavView, url: Url)
    requires
        h.wf(),
    ensures
        h.push(url).current() == url,
        h.push(url).position == h.push(url).entries.len(),
        h.push(url).entries.len() == h.position + 1,
        forall|i: int| 0 <= i < h.position ==> h.push(url).entries[i] == h.entries[i],
{
}

/// After visits to `urls` in turn, the last of them is shown, and it is
/// shown again after one step back and one step on.
pub proof fn lemma_visits_end_on_last(h: NavView, urls: Seq<Url>)
    requires
        h.wf(),
        urls.len() > 0,
    ensures
        h.push_all(urls).wf(),
        h.push_all(urls).current() == urls.last(),
        h.push_all(urls).back().advance() == h.push_all(urls),
        h.push_all(urls).back().advance().current() == urls.last(),
{
    lemma_visits_keep_wf(h, urls.drop_last());
}

/// Visits in turn keep a history well formed.
pub proof fn lemma_visits_keep_wf(h: NavView, urls: Seq<Url>)
    requires
        h.wf(),
    ensures
        h.push_all(urls).wf(),
    decreases urls.len(),
{
    if urls.len() > 0 {
        lemma_visits_keep_wf(h, urls.drop_last());
    }
}

/// A visit from a cursor that was moved back overwrites the branch ahead:
/// from `a`, a visit to `b`, a step back and a visit to `d` leave `a, d`.
pub proof fn lemma_branch_overwrite(a: Url, b: Url, d: Url)
    ensures
        NavView::start(a).push(b).entries == seq![a, b],
        NavView::start(a).push(b).current() == b,
        NavView::start(a).push(b).back().current() == a,
        NavView::start(a).push(b).back().push(d).entries == seq![a, d],
        NavView::start(a).push(b).back().push(d).current() == d,
{
    assert(NavView::start(a).push(b).entries =~= seq![a, b]);
    assert(NavView::start(a).push(b).back().push(d).entries =~= seq![a, d]);
}

/// A step back at the first entry and a step on at the last change nothing.
pub proof fn lemma_ends_hold(h: NavView)
    requires
        h.wf(),
    ensures
        h.position == 1 ==> h.back() == h,
        h.position == h.entries.len() ==> h.advance() == h,
{
}

} // verus!
