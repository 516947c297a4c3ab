//! State of the tips viewer: substring search over the tips, a wrapping
//! selection, and the search and detail modes.

use crate::input::Key;
use crate::text::{contains_text, lowercase_of, lowercase_text, occurs_in, pop_char, push_char};
use crate::tips::Tip;
use vstd::prelude::*;

verus! {

/// The lowercase form of `field` holds `q`.
pub open spec fn field_has(field: Seq<char>, q: Seq<char>) -> bool {
    occurs_in(q, lowercase_of(field))
}

/// A tip matches a lowercase query in its title, text, a tag or its
/// category.
pub open spec fn tip_matches(t: Tip, q: Seq<char>) -> bool {
    ||| field_has(t.title@, q)
    ||| field_has(t.text@, q)
    ||| exists|k: int| 0 <= k < t.tags@.len() && field_has(#[trigger] t.tags@[k]@, q)
    ||| (t.category matches Some(c) && field_has(c@, q))
}

/// `r` lists, in increasing order, exactly the indices of the tips that
/// match `q` (all of them for the empty query).
pub open spec fn listed_matches(r: Seq<usize>, tips: Seq<Tip>, q: Seq<char>) -> bool {
    &&& forall|i: int, j: int| 0 <= i < j < r.len() ==> r[i] < r[j]
    &&& forall|i: int|
        0 <= i < r.len() ==> #[trigger] r[i] < tips.len() && (q.len() == 0 || tip_matches(
            tips[r[i] as int],
            q,
        ))
    &&& forall|k: int|
        0 <= k < tips.len() && (q.len() == 0 || tip_matches(#[trigger] tips[k], q)) ==> r.contains(
            k as usize,
        )
}

fn field_holds(field: &str, q: &str) -> (r: bool)
    ensures
        r == field_has(field@, q@),
{
    let lowered = lowercase_text(field);
    contains_text(lowered.as_str(), q)
}

/// Whether `tip` matches the lowercase query `q`.
fn matches_tip(tip: &Tip, q: &str) -> (r: bool)
    ensures
        r == tip_matches(*tip, q@),
{
    if field_holds(tip.title.as_str(), q) || field_holds(tip.text.as_str(), q) {
        return true;
    }
    let mut k: usize = 0;
    while k < tip.tags.len()
        invariant
            k <= tip.tags@.len(),
            forall|j: int| 0 <= j < k ==> !field_has(#[trigger] tip.tags@[j]@, q@),
        decreases tip.tags@.len() - k,
    {
        if field_holds(tip.tags[k].as_str(), q) {
            return true;
        }
        k = k + 1;
    }
    match &tip.category {
        Some(c) => field_holds(c.as_str(), q),
        None => false,
    }
}

#[derive(Debug)]
pub struct AppState {
    tips: Vec<Tip>,
    filtered_tips: Vec<usize>,
    selected_index: usize,
    search_query: String,
    search_mode: bool,
    detail_mode: bool,
    should_quit: bool,
}

impl AppState {
    pub closed spec fn tips_seq(&self) -> Seq<Tip> {
        self.tips@
    }

    pub closed spec fn view(&self) -> Seq<usize> {
        self.filtered_tips@
    }

    pub closed spec fn selected(&self) -> nat {
        self.selected_index as nat
    }

    pub closed spec fn query(&self) -> Seq<char> {
        self.search_query@
    }

    pub closed spec fn searching(&self) -> bool {
        self.search_mode
    }

    pub closed spec fn detailing(&self) -> bool {
        self.detail_mode
    }

    pub closed spec fn quitting(&self) -> bool {
        self.should_quit
    }

    /// The selection lies in the view (0 when it is empty) and the view
    /// indexes the tips.
    pub closed spec fn wf(&self) -> bool {
        &&& if self.filtered_tips@.len() > 0 {
            self.selected_index < self.filtered_tips@.len()
        } else {
            self.selected_index == 0
        }
        &&& forall|i: int|
            0 <= i < self.filtered_tips@.len() ==> #[trigger] self.filtered_tips@[i]
                < self.tips@.len()
    }

    pub fn new(tips: Vec<Tip>) -> (r: Self)
        ensures
            r.wf(),
            r.tips_seq() == tips@,
            r.view() == Seq::new(tips@.len(), |i: int| i as usize),
            r.selected() == 0,
            r.query().len() == 0,
            !r.searching(),
            !r.detailing(),
            !r.quitting(),
    {
        let mut all: Vec<usize> = Vec::new();
        let mut i: usize = 0;
        while i < tips.len()
            invariant
                i <= tips@.len(),
                all@ == Seq::new(i as nat, |k: int| k as usize),
            decreases tips@.len() - i,
        {
            all.push(i);
            i = i + 1;
            assert(all@ =~= Seq::new(i as nat, |k: int| k as usize));
        }
        AppState {
            tips,
            filtered_tips: all,
            selected_index: 0,
            search_query: String::new(),
            search_mode: false,
            detail_mode: false,
            should_quit: false,
        }
    }

    /// Keeps the query in lowercase and lists the tips that match it,
    /// selecting the first.
    pub fn update_search(&mut self, query: String)
        requires
            old(self).wf(),
        ensures
            final(self).wf(),
            final(self).query() == lowercase_of(query@),
            listed_matches(final(self).view(), final(self).tips_seq(), final(self).query()),
            final(self).selected() == 0,
            final(self).tips_seq() == old(self).tips_seq(),
            final(self).searching() == old(self).searching(),
            final(self).detailing() == old(self).detailing(),
            final(self).quitting() == old(self).quitting(),
    {
        self.search_query = lowercase_text(query.as_str());
        let empty = self.search_query.as_str().is_empty();
        let mut r: Vec<usize> = Vec::new();
        let mut k: usize = 0;
        while k < self.tips.len()
            invariant
                k <= self.tips@.len(),
                empty == (self.search_query@.len() == 0),
                forall|i: int, j: int| 0 <= i < j < r@.len() ==> r@[i] < r@[j],
                forall|i: int|
                    0 <= i < r@.len() ==> #[trigger] r@[i] < k && (self.search_query@.len() == 0
                        || tip_matches(self.tips@[r@[i] as int], self.search_query@)),
                forall|j: int|
                    0 <= j < k && (self.search_query@.len() == 0 || tip_matches(
                        #[trigger] self.tips@[j],
                        self.search_query@,
                    )) ==> r@.contains(j as usize),
            decreases self.tips@.len() - k,
        {
            if empty || matches_tip(&self.tips[k], self.search_query.as_str()) {
                let ghost before = r@;
                r.push(k);
                assert forall|j: int|
                    0 <= j <= k && (self.search_query@.len() == 0 || tip_matches(
                        #[trigger] self.tips@[j],
                        self.search_query@,
                    )) implies r@.contains(j as usize) by {
                    if j == k {
                        assert(r@[before.len() as int] == k);
                    } else {
                        let t = choose|t: int| 0 <= t < before.len() && before[t] == j as usize;
                        assert(r@[t] == before[t]);
                    }
                }
            }
            k = k + 1;
        }
        assert(listed_matches(r@, self.tips@, self.search_query@)) by {
            assert forall|j: int|
                0 <= j < self.tips@.len() && (self.search_query@.len() == 0 || tip_matches(
                    #[trigger] self.tips@[j],
                    self.search_query@,
                )) implies r@.contains(j as usize) by {}
        }
        self.filtered_tips = r;
        self.selected_index = 0;
    }

    /// Selects the next tip, from the last to the first.
    pub fn select_next(&mut self)
        requires
            old(self).wf(),
        ensures
            final(self).wf(),
            final(self).view() == old(self).view(),
            old(self).view().len() > 0 ==> final(self).selected() == (old(self).selected() + 1)
                % old(self).view().len(),
            old(self).view().len() == 0 ==> final(self).selected() == old(self).selected(),
            final(self).tips_seq() == old(self).tips_seq(),
            final(self).query() == old(self).query(),
            final(self).searching() == old(self).searching(),
            final(self).detailing() == old(self).detailing(),
            final(self).quitting() == old(self).quitting(),
    {
        if self.filtered_tips.len() > 0 {
            self.selected_index = (self.selected_index + 1) % self.filtered_tips.len();
        }
    }

    /// Selects the previous tip, from the first to the last.
    pub fn select_prev(&mut self)
        requires
            old(self).wf(),
        ensures
            final(self).wf(),
            final(self).view() == old(self).view(),
            old(self).view().len() > 0 ==> final(self).selected() == if old(self).selected() == 0 {
                old(self).view().len() - 1
            } else {
                old(self).selected() - 1
            },
            old(self).view().len() == 0 ==> final(self).selected() == old(self).selected(),
            final(self).tips_seq() == old(self).tips_seq(),
            final(self).query() == old(self).query(),
            final(self).searching() == old(self).searching(),
            final(self).detailing() == old(self).detailing(),
            final(self).quitting() == old(self).quitting(),
    {
        if self.filtered_tips.len() > 0 {
            if self.selected_index == 0 {
                self.selected_index = self.filtered_tips.len() - 1;
            } else {
                self.selected_index = self.selected_index - 1;
            }
        }
    }

    /// Switches search mode; entering it clears the search.
    pub fn toggle_search(&mut self)
        requires
            old(self).wf(),
        ensures
            final(self).wf(),
            final(self).searching() == !old(self).searching(),
            final(self).searching() ==> final(self).query() == lowercase_of(Seq::empty())
                && listed_matches(final(self).view(), final(self).tips_seq(), final(self).query())
                && final(self).selected() == 0,
            !final(self).searching() ==> final(self).view() == old(self).view() && final(self).selected() == old(self).selected() && final(self).query() == old(self).query(),
            final(self).tips_seq() == old(self).tips_seq(),
            final(self).detailing() == old(self).detailing(),
            final(self).quitting() == old(self).quitting(),
    {
        self.search_mode = !self.search_mode;
        if self.search_mode {
            self.update_search(String::new());
        }
    }

    pub fn toggle_detail(&mut self)
        requires
            old(self).wf(),
        ensures
            final(self).wf(),
            final(self).detailing() == !old(self).detailing(),
            final(self).view() == old(self).view(),
            final(self).selected() == old(self).selected(),
            final(self).tips_seq() == old(self).tips_seq(),
            final(self).query() == old(self).query(),
            final(self).searching() == old(self).searching(),
            final(self).quitting() == old(self).quitting(),
    {
        self.detail_mode = !self.detail_mode;
    }

    pub fn quit(&mut self)
        requires
            old(self).wf(),
        ensures
            final(self).wf(),
            final(self).quitting(),
            final(self).view() == old(self).view(),
            final(self).selected() == old(self).selected(),
            final(self).tips_seq() == old(self).tips_seq(),
            final(self).query() == old(self).query(),
            final(self).searching() == old(self).searching(),
            final(self).detailing() == old(self).detailing(),
    {
        self.should_quit = true;
    }

    pub fn should_quit(&self) -> (r: bool)
        ensures
            r == self.quitting(),
    {
        self.should_quit
    }

    /// The selected tip; `None` when no tip is listed.
    pub fn selected_tip(&self) -> (r: Option<&Tip>)
        requires
            self.wf(),
        ensures
            r is None <==> self.view().len() == 0,
            r matches Some(t) ==> *t == self.tips_seq()[self.view()[self.selected() as int] as int],
    {
        if self.filtered_tips.len() == 0 {
            None
        } else {
            let idx = self.filtered_tips[self.selected_index];
            Some(&self.tips[idx])
        }
    }

    pub fn all_tips(&self) -> (r: &[Tip])
        ensures
            r@ == self.tips_seq(),
    {
        self.tips.as_slice()
    }

    /// The listed tips, in order.
    pub fn filtered_tips(&self) -> (r: Vec<&Tip>)
        requires
            self.wf(),
        ensures
            r@.len() == self.view().len(),
            forall|i: int|
                0 <= i < r@.len() ==> *r@[i] == self.tips_seq()[#[trigger] self.view()[i] as int],
    {
        let mut r: Vec<&Tip> = Vec::new();
        let mut i: usize = 0;
        while i < self.filtered_tips.len()
            invariant
                self.wf(),
                i <= self.filtered_tips@.len(),
                r@.len() == i,
                forall|j: int|
                    0 <= j < i ==> *r@[j] == self.tips@[#[trigger] self.filtered_tips@[j] as int],
            decreases self.filtered_tips@.len() - i,
        {
            let idx = self.filtered_tips[i];
            r.push(&self.tips[idx]);
            i = i + 1;
        }
        r
    }

    pub fn filtered_count(&self) -> (r: usize)
        ensures
            r == self.view().len(),
    {
        self.filtered_tips.len()
    }

    pub fn selected_index(&self) -> (r: usize)
        ensures
            r == self.selected(),
    {
        self.selected_index
    }

    pub fn search_query(&self) -> (r: &str)
        ensures
            r@ == self.query(),
    {
        self.search_query.as_str()
    }

    pub fn is_search_mode(&self) -> (r: bool)
        ensures
            r == self.searching(),
    {
        self.search_mode
    }

    pub fn is_detail_mode(&self) -> (r: bool)
        ensures
            r == self.detailing(),
    {
        self.detail_mode
    }
}

/// Reacts to a key: Esc closes the detail view first; in search mode keys
/// edit the query and Esc leaves search; otherwise j/k and the arrows move,
/// Enter opens the detail view, `/` starts a search and Esc quits.
pub fn handle_key_event(state: &mut AppState, key: Key)
    requires
        old(state).wf(),
    ensures
        final(state).wf(),
        final(state).tips_seq() == old(state).tips_seq(),
        old(state).detailing() && key == Key::Esc ==> !final(state).detailing() && final(state).view() == old(state).view() && final(state).query() == old(state).query(),
        !old(state).detailing() && old(state).searching() ==> match key {
            Key::Char(c) => final(state).query() == lowercase_of(old(state).query().push(c))
                && listed_matches(final(state).view(), final(state).tips_seq(), final(state).query()),
            Key::Backspace => final(state).query() == lowercase_of(
                if old(state).query().len() > 0 {
                    old(state).query().drop_last()
                } else {
                    old(state).query()
                },
            ) && listed_matches(final(state).view(), final(state).tips_seq(), final(state).query()),
            Key::Esc => !final(state).searching(),
            _ => *final(state) == *old(state),
        },
        !old(state).detailing() && !old(state).searching() ==> match key {
            Key::Down | Key::Char('j') => final(state).view() == old(state).view() && (old(state).view().len() > 0 ==> final(state).selected() == (old(state).selected() + 1) % old(state).view().len()),
            Key::Up | Key::Char('k') => final(state).view() == old(state).view() && (old(state).view().len() > 0 ==> final(state).selected() == if old(state).selected() == 0 {
                old(state).view().len() - 1
            } else {
                old(state).selected() - 1
            }),
            Key::Enter => final(state).detailing(),
            Key::Char('/') => final(state).searching(),
            Key::Esc => final(state).quitting(),
            _ => *final(state) == *old(state),
        },
        old(state).detailing() && key != Key::Esc ==> *final(state) == *old(state),
{
    if state.is_detail_mode() {
        if key == Key::Esc {
            state.toggle_detail();
        }
        return;
    }
    if state.is_search_mode() {
        match key {
            Key::Char(c) => {
                let mut query = String::from_str(state.search_query());
                push_char(&mut query, c);
                state.update_search(query);
            },
            Key::Backspace => {
                let mut query = String::from_str(state.search_query());
                pop_char(&mut query);
                state.update_search(query);
            },
            Key::Esc => state.toggle_search(),
            _ => {},
        }
        return;
    }
    match key {
        Key::Down | Key::Char('j') => state.select_next(),
        Key::Up | Key::Char('k') => state.select_prev(),
        Key::Enter => state.toggle_detail(),
        Key::Char('/') => state.toggle_search(),
        Key::Esc => state.quit(),
        _ => {},
    }
}

} // verus!
