//! The session state: the skill collection, the filtered view of it, the
//! selection, the modes, favourites and recents, and the output panel.

use crate::config::Config;
use crate::i18n::{is_english, is_korean, language_of, Language, Translations};
use crate::search::{filter_skills, score_or_zero, skill_score, texts_of};
use crate::skills::output::SkillOutput;
use crate::skills::Skill;
use crate::text::{
    count_lines, line_total, lowercase_of, pop_char, push_char, same_text, trimmed_of,
};
use vstd::prelude::*;

verus! {

/// Which skills the list admits before search.
#[derive(Debug, Clone, Copy, PartialEq, Eq, Structural, Default)]
pub enum ViewMode {
    #[default]
    All,
    Favorites,
    Recent,
}

/// What keys do: navigate and command, or type into the search.
#[derive(Debug, Clone, Copy, PartialEq, Eq, Structural, Default)]
pub enum InputMode {
    #[default]
    Normal,
    Insert,
}

/// Lines of output the panel is assumed to show when scrolling is capped.
pub const OUTPUT_VISIBLE_LINES: usize = 20;

/// `v` holds a string equal to `id`.
pub open spec fn listed(v: Seq<String>, id: Seq<char>) -> bool {
    exists|i: int| 0 <= i < v.len() && #[trigger] v[i]@ == id
}

/// The first `n` entries of `v` (all of them when it is shorter).
pub open spec fn first_entries(v: Seq<String>, n: nat) -> Seq<String> {
    if n < v.len() {
        v.take(n as int)
    } else {
        v
    }
}

/// Whether the view mode admits `skill`: every skill, the favourites, or
/// those among the first `max_recent` recent identifiers.
pub open spec fn admits(
    mode: ViewMode,
    skill: Skill,
    favorites: Seq<String>,
    recent: Seq<String>,
    max_recent: nat,
) -> bool {
    match mode {
        ViewMode::All => true,
        ViewMode::Favorites => listed(favorites, skill.id()),
        ViewMode::Recent => listed(first_entries(recent, max_recent), skill.id()),
    }
}

/// `r` is the view the filters compose to: for an empty query the admitted
/// indices in increasing order; otherwise the admitted indices that match
/// the lowercase query, each once, best first.
pub open spec fn composed(
    r: Seq<usize>,
    query: Seq<char>,
    skills: Seq<Skill>,
    allows: spec_fn(Skill) -> bool,
) -> bool {
    &&& forall|i: int| 0 <= i < r.len() ==> #[trigger] r[i] < skills.len() && allows(skills[r[i] as int])
    &&& if query.len() == 0 {
        &&& forall|i: int, j: int| 0 <= i < j < r.len() ==> r[i] < r[j]
        &&& forall|k: int| 0 <= k < skills.len() && allows(#[trigger] skills[k]) ==> r.contains(k as usize)
    } else {
        let q = lowercase_of(query);
        &&& forall|i: int, j: int| 0 <= i < j < r.len() ==> r[i] != r[j]
        &&& forall|i: int| 0 <= i < r.len() ==> skill_score(q, skills[#[trigger] r[i] as int]) is Some
        &&& forall|k: int|
            0 <= k < skills.len() && allows(#[trigger] skills[k]) && skill_score(q, skills[k])
                is Some ==> r.contains(k as usize)
        &&& forall|i: int, j: int|
            0 <= i < j < r.len() ==> score_or_zero(q, skills[r[i] as int]) >= score_or_zero(
                q,
                skills[r[j] as int],
            )
    }
}

/// Lines the output panel holds: the stdout lines, then a separator and
/// the stderr lines when there are any.
pub open spec fn output_lines(o: SkillOutput) -> nat {
    line_total(o.stdout@) + if o.stderr@.len() == 0 {
        0nat
    } else {
        line_total(o.stderr@) + 1
    }
}

/// Furthest the output panel scrolls.
pub open spec fn output_scroll_limit(o: Option<SkillOutput>) -> nat {
    match o {
        Some(out) => if output_lines(out) > OUTPUT_VISIBLE_LINES {
            (output_lines(out) - OUTPUT_VISIBLE_LINES) as nat
        } else {
            0
        },
        None => 0,
    }
}

#[derive(Debug)]
pub struct AppState {
    skills: Vec<Skill>,
    filtered_skills: Vec<usize>,
    selected_index: usize,
    search_query: String,
    view_mode: ViewMode,
    input_mode: InputMode,
    favorites: Vec<String>,
    recent: Vec<String>,
    config: Config,
    translations: Translations,
    should_quit: bool,
    scroll_offset: usize,
    executing_inline: bool,
    inline_execution_status: Option<String>,
    active_output: Option<SkillOutput>,
    output_panel_visible: bool,
    output_scroll_offset: usize,
}

impl AppState {
    pub closed spec fn skills_seq(&self) -> Seq<Skill> {
        self.skills@
    }

    /// The filtered view: indices into the skill collection.
    pub closed spec fn view(&self) -> Seq<usize> {
        self.filtered_skills@
    }

    pub closed spec fn selected(&self) -> nat {
        self.selected_index as nat
    }

    pub closed spec fn scroll(&self) -> nat {
        self.scroll_offset as nat
    }

    pub closed spec fn query(&self) -> Seq<char> {
        self.search_query@
    }

    pub closed spec fn mode(&self) -> ViewMode {
        self.view_mode
    }

    pub closed spec fn input(&self) -> InputMode {
        self.input_mode
    }

    pub closed spec fn favorite_ids(&self) -> Seq<String> {
        self.favorites@
    }

    /// Recently executed identifiers, most recent first.
    pub closed spec fn recent_ids(&self) -> Seq<String> {
        self.recent@
    }

    pub closed spec fn max_recent(&self) -> nat {
        self.config.max_recent_skills as nat
    }

    pub closed spec fn quitting(&self) -> bool {
        self.should_quit
    }

    pub closed spec fn executing(&self) -> bool {
        self.executing_inline
    }

    pub closed spec fn status(&self) -> Option<String> {
        self.inline_execution_status
    }

    pub closed spec fn output(&self) -> Option<SkillOutput> {
        self.active_output
    }

    pub closed spec fn panel_visible(&self) -> bool {
        self.output_panel_visible
    }

    pub closed spec fn output_scroll(&self) -> nat {
        self.output_scroll_offset as nat
    }

    pub closed spec fn settings(&self) -> Config {
        self.config
    }

    /// The interface strings in use.
    pub closed spec fn texts(&self) -> Translations {
        self.translations
    }

    /// What the current view mode admits.
    pub open spec fn admission(&self) -> spec_fn(Skill) -> bool {
        |s: Skill|
            admits(self.mode(), s, self.favorite_ids(), self.recent_ids(), self.max_recent())
    }

    /// The view is what the filters compose to for the current query, mode,
    /// favourites and recents.
    pub open spec fn shows_filter(&self) -> bool {
        composed(self.view(), self.query(), self.skills_seq(), self.admission())
    }

    /// The selection lies in the view (at 0 when it is empty), the view
    /// indexes the collection, and the recent list is bounded and has no
    /// repeated identifier.
    pub closed spec fn wf(&self) -> bool {
        &&& if self.filtered_skills@.len() > 0 {
            self.selected_index < self.filtered_skills@.len()
        } else {
            self.selected_index == 0
        }
        &&& forall|i: int|
            0 <= i < self.filtered_skills@.len() ==> #[trigger] self.filtered_skills@[i]
                < self.skills@.len()
        &&& self.recent@.len() <= self.config.max_recent_skills
        &&& distinct_texts(self.recent@)
        &&& distinct_texts(self.favorites@)
    }

    /// Everything but the view, selection and scroll is as in `o`.
    pub open spec fn same_but_view(&self, o: &AppState) -> bool {
        &&& self.skills_seq() == o.skills_seq()
        &&& self.query() == o.query()
        &&& self.mode() == o.mode()
        &&& self.input() == o.input()
        &&& self.favorite_ids() == o.favorite_ids()
        &&& self.recent_ids() == o.recent_ids()
        &&& self.settings() == o.settings()
        &&& self.texts() == o.texts()
        &&& self.same_output_state(o)
    }

    /// The collection, favourites, recents, configuration and interface
    /// strings are as in `o`.
    pub open spec fn same_data(&self, o: &AppState) -> bool {
        &&& self.skills_seq() == o.skills_seq()
        &&& self.favorite_ids() == o.favorite_ids()
        &&& self.recent_ids() == o.recent_ids()
        &&& self.settings() == o.settings()
        &&& self.texts() == o.texts()
    }

    /// The quit flag and everything about inline execution and the output
    /// panel are as in `o`.
    pub open spec fn same_output_state(&self, o: &AppState) -> bool {
        &&& self.quitting() == o.quitting()
        &&& self.executing() == o.executing()
        &&& self.status() == o.status()
        &&& self.output() == o.output()
        &&& self.panel_visible() == o.panel_visible()
        &&& self.output_scroll() == o.output_scroll()
    }

    /// The list side of the state is as in `o`.
    pub open spec fn same_list_state(&self, o: &AppState) -> bool {
        &&& self.skills_seq() == o.skills_seq()
        &&& self.view() == o.view()
        &&& self.selected() == o.selected()
        &&& self.scroll() == o.scroll()
        &&& self.query() == o.query()
        &&& self.mode() == o.mode()
        &&& self.input() == o.input()
        &&& self.favorite_ids() == o.favorite_ids()
        &&& self.recent_ids() == o.recent_ids()
        &&& self.settings() == o.settings()
        &&& self.texts() == o.texts()
    }
}

/// No two strings of `v` are equal.
pub open spec fn distinct_texts(v: Seq<String>) -> bool {
    texts_of(v).no_duplicates()
}

/// Keeps the texts other than `id`.
pub open spec fn other_than(id: Seq<char>) -> spec_fn(Seq<char>) -> bool {
    |t: Seq<char>| t != id
}

/// The recent list after `id` is executed: `id` first, then the earlier
/// entries without it, cut to `max` entries.
pub open spec fn recent_after(old: Seq<Seq<char>>, id: Seq<char>, max: nat) -> Seq<Seq<char>> {
    let all = seq![id] + old.filter(other_than(id));
    if max < all.len() {
        all.take(max as int)
    } else {
        all
    }
}

/// Removing `id` from a list without repeats leaves a list without repeats,
/// without `id`, one entry shorter if `id` was there.
proof fn lemma_without(s: Seq<Seq<char>>, id: Seq<char>)
    requires
        s.no_duplicates(),
    ensures
        s.filter(other_than(id)).no_duplicates(),
        !s.filter(other_than(id)).contains(id),
        forall|x: Seq<char>| s.filter(other_than(id)).contains(x) ==> s.contains(x),
        s.filter(other_than(id)).len() == if s.contains(id) {
            s.len() - 1
        } else {
            s.len() as int
        },
    decreases s.len(),
{
    reveal(Seq::filter);
    let f = s.filter(other_than(id));
    if s.len() > 0 {
        let p = s.drop_last();
        let x = s.last();
        assert(p.no_duplicates()) by {
            assert forall|i: int, j: int|
                0 <= i < p.len() && 0 <= j < p.len() && i != j implies p[i] != p[j] by {
                assert(p[i] == s[i] && p[j] == s[j]);
            }
        }
        lemma_without(p, id);
        let pf = p.filter(other_than(id));
        assert(!p.contains(x)) by {
            if p.contains(x) {
                let i = choose|i: int| 0 <= i < p.len() && p[i] == x;
                assert(s[i] == s[s.len() - 1]);
            }
        }
        assert(s.contains(id) <==> (p.contains(id) || x == id)) by {
            if p.contains(id) {
                let i = choose|i: int| 0 <= i < p.len() && p[i] == id;
                assert(s[i] == id);
            }
            if x == id {
                assert(s[s.len() - 1] == id);
            }
            if s.contains(id) {
                let i = choose|i: int| 0 <= i < s.len() && s[i] == id;
                if i < s.len() - 1 {
                    assert(p[i] == id);
                }
            }
        }
        if x != id {
            assert(f == pf.push(x));
            assert forall|y: Seq<char>| f.contains(y) implies s.contains(y) by {
                let i = choose|i: int| 0 <= i < f.len() && f[i] == y;
                if i < pf.len() {
                    assert(pf[i] == y);
                    assert(pf.contains(y));
                    assert(p.contains(y));
                    let k = choose|k: int| 0 <= k < p.len() && p[k] == y;
                    assert(s[k] == y);
                } else {
                    assert(s[s.len() - 1] == y);
                }
            }
            assert(f.no_duplicates()) by {
                assert forall|i: int, j: int|
                    0 <= i < f.len() && 0 <= j < f.len() && i != j implies f[i] != f[j] by {
                    if i < pf.len() && j < pf.len() {
                    } else if i < pf.len() {
                        assert(pf.contains(f[i]));
                    } else {
                        assert(pf.contains(f[j]));
                    }
                }
            }
            assert(!f.contains(id)) by {
                if f.contains(id) {
                    let i = choose|i: int| 0 <= i < f.len() && f[i] == id;
                    if i < pf.len() {
                        assert(pf.contains(id));
                    }
                }
            }
        } else {
            assert(f == pf);
            assert forall|y: Seq<char>| f.contains(y) implies s.contains(y) by {
                assert(p.contains(y));
                let k = choose|k: int| 0 <= k < p.len() && p[k] == y;
                assert(s[k] == y);
            }
        }
    } else {
        assert(f == s);
    }
}

/// Executing a skill keeps the recent list free of repeats and within its
/// bound, puts the skill first, and moves an identifier already listed to
/// the front without growing the list.
pub proof fn lemma_recent_bounded(old: Seq<Seq<char>>, id: Seq<char>, max: nat)
    requires
        old.no_duplicates(),
        old.len() <= max,
    ensures
        recent_after(old, id, max).no_duplicates(),
        recent_after(old, id, max).len() <= max,
        max > 0 ==> recent_after(old, id, max)[0] == id,
        old.contains(id) ==> recent_after(old, id, max).len() == old.len(),
        old.contains(id) ==> forall|x: Seq<char>|
            recent_after(old, id, max).contains(x) <==> old.contains(x),
{
    lemma_without(old, id);
    let f = old.filter(other_than(id));
    let all = seq![id] + f;
    assert(all.no_duplicates()) by {
        assert forall|i: int, j: int|
            0 <= i < all.len() && 0 <= j < all.len() && i != j implies all[i] != all[j] by {
            if i > 0 && j > 0 {
                assert(all[i] == f[i - 1] && all[j] == f[j - 1]);
            } else if i == 0 {
                assert(all[j] == f[j - 1]);
                assert(f.contains(all[j]));
            } else {
                assert(all[i] == f[i - 1]);
                assert(f.contains(all[i]));
            }
        }
    }
    let r = recent_after(old, id, max);
    assert forall|i: int, j: int| 0 <= i < r.len() && 0 <= j < r.len() && i != j implies r[i]
        != r[j] by {
        assert(r[i] == all[i] && r[j] == all[j]);
    }
    if max > 0 {
        assert(r[0] == all[0]);
    }
    if old.contains(id) {
        assert(r == all);
        assert forall|x: Seq<char>| r.contains(x) <==> old.contains(x) by {
            if r.contains(x) {
                let i = choose|i: int| 0 <= i < r.len() && r[i] == x;
                if i > 0 {
                    assert(f[i - 1] == x);
                    assert(f.contains(x));
                }
            }
            if old.contains(x) {
                if x == id {
                    assert(r[0] == x);
                } else {
                    let i = choose|i: int| 0 <= i < old.len() && old[i] == x;
                    old.lemma_filter_contains(other_than(id), i);
                    let t = choose|t: int| 0 <= t < f.len() && f[t] == x;
                    assert(r[t + 1] == x);
                }
            }
        }
    }
}

/// Whether one of the first `upto` strings of `v` equals `id`.
fn listed_in(v: &Vec<String>, upto: usize, id: &str) -> (r: bool)
    requires
        upto <= v@.len(),
    ensures
        r == listed(v@.take(upto as int), id@),
{
    let ghost pre = v@.take(upto as int);
    let mut i: usize = 0;
    while i < upto
        invariant
            upto <= v@.len(),
            pre == v@.take(upto as int),
            i <= upto,
            forall|k: int| 0 <= k < i ==> v@[k]@ != id@,
        decreases upto - i,
    {
        if same_text(v[i].as_str(), id) {
            assert(pre[i as int]@ == id@);
            return true;
        }
        i = i + 1;
    }
    assert(!listed(pre, id@)) by {
        assert forall|k: int| 0 <= k < pre.len() implies #[trigger] pre[k]@ != id@ by {
            assert(pre[k] == v@[k]);
        }
    }
    false
}

impl AppState {
    /// A session over `skills` in the configured view mode, with an empty
    /// search, no favourites or recents, Normal input, and the view composed
    /// from them (every skill for All, none for Favorites and Recent).
    pub fn new(skills: Vec<Skill>, config: Config) -> (r: Self)
        ensures
            r.wf(),
            r.skills_seq() == skills@,
            r.shows_filter(),
            r.selected() == 0,
            r.scroll() == 0,
            r.query().len() == 0,
            r.mode() == config.default_view_mode,
            r.input() == InputMode::Normal,
            r.favorite_ids().len() == 0,
            r.recent_ids().len() == 0,
            r.settings() == config,
            language_of(lowercase_of(trimmed_of(config.language@))) == Language::En ==> is_english(
                r.texts(),
            ),
            language_of(lowercase_of(trimmed_of(config.language@))) == Language::Ko ==> is_korean(
                r.texts(),
            ),
            !r.quitting(),
            !r.executing(),
            r.status() is None,
            r.output() is None,
            !r.panel_visible(),
            r.output_scroll() == 0,
    {
        let translations = Translations::load(Language::from_code(config.language.as_str()));
        let view_mode = config.default_view_mode;
        let mut state = AppState {
            skills,
            filtered_skills: Vec::new(),
            selected_index: 0,
            search_query: String::new(),
            view_mode,
            input_mode: InputMode::Normal,
            favorites: Vec::new(),
            recent: Vec::new(),
            config,
            translations,
            should_quit: false,
            scroll_offset: 0,
            executing_inline: false,
            inline_execution_status: None,
            active_output: None,
            output_panel_visible: false,
            output_scroll_offset: 0,
        };
        assert(texts_of(state.recent@) =~= Seq::<Seq<char>>::empty());
        assert(texts_of(state.favorites@) =~= Seq::<Seq<char>>::empty());
        state.apply_view_filter();
        state
    }

    /// Whether the current view mode admits `skill`.
    fn admits_skill(&self, skill: &Skill) -> (r: bool)
        ensures
            r == admits(
                self.mode(),
                *skill,
                self.favorite_ids(),
                self.recent_ids(),
                self.max_recent(),
            ),
    {
        match self.view_mode {
            ViewMode::All => true,
            ViewMode::Favorites => {
                let r = listed_in(&self.favorites, self.favorites.len(), skill.manifest.id.as_str());
                assert(self.favorites@.take(self.favorites@.len() as int) =~= self.favorites@);
                r
            },
            ViewMode::Recent => {
                let n = if self.config.max_recent_skills < self.recent.len() {
                    self.config.max_recent_skills
                } else {
                    self.recent.len()
                };
                let r = listed_in(&self.recent, n, skill.manifest.id.as_str());
                assert(self.recent@.take(self.recent@.len() as int) =~= self.recent@);
                r
            },
        }
    }

    /// Recomputes the view from the view mode and then the search query,
    /// and resets the selection and the list scroll.
    pub fn apply_view_filter(&mut self)
        requires
            old(self).wf(),
        ensures
            final(self).wf(),
            final(self).shows_filter(),
            final(self).selected() == 0,
            final(self).scroll() == 0,
            final(self).same_but_view(old(self)),
    {
        let ghost allows = self.admission();
        let n = self.skills.len();
        let mut admitted: Vec<bool> = Vec::new();
        let mut k: usize = 0;
        while k < n
            invariant
                n == self.skills@.len(),
                k <= n,
                admitted@.len() == k,
                allows == self.admission(),
                forall|j: int| 0 <= j < k ==> admitted@[j] == allows(self.skills@[j]),
            decreases n - k,
        {
            let a = self.admits_skill(&self.skills[k]);
            admitted.push(a);
            k = k + 1;
        }
        let mut result: Vec<usize> = Vec::new();
        if self.search_query.as_str().is_empty() {
            let mut k: usize = 0;
            while k < n
                invariant
                    n == self.skills@.len(),
                    k <= n,
                    admitted@.len() == n,
                    forall|j: int| 0 <= j < n ==> admitted@[j] == allows(self.skills@[j]),
                    forall|i: int|
                        0 <= i < result@.len() ==> #[trigger] result@[i] < k && allows(
                            self.skills@[result@[i] as int],
                        ),
                    forall|i: int, j: int| 0 <= i < j < result@.len() ==> result@[i] < result@[j],
                    forall|j: int| 0 <= j < k && allows(#[trigger] self.skills@[j]) ==> result@.contains(
                        j as usize,
                    ),
                decreases n - k,
            {
                if admitted[k] {
                    let ghost before = result@;
                    result.push(k);
                    assert forall|j: int|
                        0 <= j <= k && allows(#[trigger] self.skills@[j]) implies result@.contains(
                        j as usize,
                    ) by {
                        if j == k {
                            assert(result@[before.len() as int] == k);
                        } else {
                            let t = choose|t: int| 0 <= t < before.len() && before[t] == j as usize;
                            assert(result@[t] == before[t]);
                        }
                    }
                }
                k = k + 1;
            }
        } else {
            let ranked = filter_skills(self.search_query.as_str(), self.skills.as_slice());
            let ghost q = lowercase_of(self.search_query@);
            let ghost mut pos: Seq<int> = Seq::empty();
            let mut i: usize = 0;
            while i < ranked.len()
                invariant
                    n == self.skills@.len(),
                    admitted@.len() == n,
                    forall|j: int| 0 <= j < n ==> admitted@[j] == allows(self.skills@[j]),
                    crate::search::ranked(ranked@, q, self.skills@),
                    i <= ranked@.len(),
                    pos.len() == result@.len(),
                    forall|t: int|
                        0 <= t < pos.len() ==> 0 <= #[trigger] pos[t] < i && result@[t]
                            == ranked@[pos[t]],
                    forall|t: int, u: int| 0 <= t < u < pos.len() ==> pos[t] < pos[u],
                    forall|t: int| 0 <= t < result@.len() ==> allows(self.skills@[#[trigger] result@[t] as int]),
                    forall|j: int|
                        0 <= j < i && allows(self.skills@[#[trigger] ranked@[j] as int]) ==> result@.contains(
                            ranked@[j],
                        ),
                decreases ranked@.len() - i,
            {
                let idx = ranked[i];
                assert(idx < n);
                if admitted[idx] {
                    let ghost before = result@;
                    result.push(idx);
                    proof {
                        pos = pos.push(i as int);
                    }
                    assert forall|j: int|
                        0 <= j <= i && allows(self.skills@[#[trigger] ranked@[j] as int]) implies result@.contains(
                            ranked@[j],
                        ) by {
                        if j == i {
                            assert(result@[before.len() as int] == idx);
                        } else {
                            let t = choose|t: int| 0 <= t < before.len() && before[t] == ranked@[j];
                            assert(result@[t] == before[t]);
                        }
                    }
                }
                i = i + 1;
            }
            assert forall|t: int, u: int| 0 <= t < u < result@.len() implies result@[t]
                != result@[u] && score_or_zero(q, self.skills@[result@[t] as int]) >= score_or_zero(
                q,
                self.skills@[result@[u] as int],
            ) by {
                assert(pos[t] < pos[u]);
            }
            assert forall|k: int|
                0 <= k < n && allows(#[trigger] self.skills@[k]) && skill_score(q, self.skills@[k])
                    is Some implies result@.contains(k as usize) by {
                assert(ranked@.contains(k as usize));
                let j = choose|j: int| 0 <= j < ranked@.len() && ranked@[j] == k as usize;
                assert(allows(self.skills@[ranked@[j] as int]));
            }
            assert forall|t: int| 0 <= t < result@.len() implies skill_score(
                q,
                self.skills@[#[trigger] result@[t] as int],
            ) is Some by {
                assert(result@[t] == ranked@[pos[t]]);
            }
            assert forall|t: int| 0 <= t < result@.len() implies #[trigger] result@[t] < n by {
                assert(result@[t] == ranked@[pos[t]]);
            }
        }
        self.filtered_skills = result;
        self.selected_index = 0;
        self.scroll_offset = 0;
    }
}

/// Where the list scroll goes so that `selected` is inside a window of
/// `height` rows: down to the selection when it is above the window, forward
/// by the overshoot when it is past it.
pub open spec fn scrolled(selected: nat, scroll: nat, height: nat) -> nat {
    if height == 0 {
        scroll
    } else if selected < scroll {
        selected
    } else if selected >= scroll + height {
        (selected - height + 1) as nat
    } else {
        scroll
    }
}

impl AppState {
    /// Moves the selection up one entry, from the first to the last.
    pub fn move_selection_up(&mut self)
        requires
            old(self).wf(),
        ensures
            final(self).wf(),
            final(self).same_but_view(old(self)),
            old(self).view().len() == 0 ==> *final(self) == *old(self),
            final(self).view() == old(self).view(),
            old(self).view().len() == 0 ==> final(self).selected() == old(self).selected()
                && final(self).scroll() == old(self).scroll(),
            old(self).view().len() > 0 ==> final(self).selected() == (if old(self).selected() == 0 {
                old(self).view().len() - 1
            } else {
                old(self).selected() - 1
            }) && final(self).scroll() == (if final(self).selected() < old(self).scroll() {
                final(self).selected()
            } else {
                old(self).scroll()
            }),
    {
        if self.filtered_skills.len() == 0 {
            return;
        }
        if self.selected_index == 0 {
            self.selected_index = self.filtered_skills.len() - 1;
        } else {
            self.selected_index = self.selected_index - 1;
        }
        if self.selected_index < self.scroll_offset {
            self.scroll_offset = self.selected_index;
        }
    }

    /// Moves the selection down one entry, from the last to the first; the
    /// scroll returns to the top on wrapping.
    pub fn move_selection_down(&mut self)
        requires
            old(self).wf(),
        ensures
            final(self).wf(),
            final(self).same_but_view(old(self)),
            old(self).view().len() == 0 ==> *final(self) == *old(self),
            final(self).view() == old(self).view(),
            old(self).view().len() == 0 ==> final(self).selected() == old(self).selected()
                && final(self).scroll() == old(self).scroll(),
            old(self).view().len() > 0 ==> final(self).selected() == (old(self).selected() + 1)
                % old(self).view().len(),
            old(self).view().len() > 0 ==> final(self).scroll() == (if final(self).selected()
                == 0 {
                0
            } else {
                old(self).scroll()
            }),
    {
        if self.filtered_skills.len() == 0 {
            return;
        }
        self.selected_index = (self.selected_index + 1) % self.filtered_skills.len();
        if self.selected_index == 0 {
            self.scroll_offset = 0;
        }
    }

    /// Advances the selection by `page_size`, stopping at the last entry,
    /// and scrolls to keep it in a window of `page_size` rows.
    pub fn move_selection_page_down(&mut self, page_size: usize)
        requires
            old(self).wf(),
        ensures
            final(self).wf(),
            final(self).same_but_view(old(self)),
            old(self).view().len() == 0 ==> *final(self) == *old(self),
            final(self).view() == old(self).view(),
            old(self).view().len() == 0 ==> final(self).selected() == old(self).selected()
                && final(self).scroll() == old(self).scroll(),
            old(self).view().len() > 0 ==> final(self).selected() == (if old(self).selected()
                + page_size < old(self).view().len() {
                old(self).selected() + page_size
            } else {
                old(self).view().len() - 1
            }) && final(self).scroll() == scrolled(
                final(self).selected(),
                old(self).scroll(),
                page_size as nat,
            ),
    {
        if self.filtered_skills.len() == 0 {
            return;
        }
        let max_index = self.filtered_skills.len() - 1;
        if page_size < max_index - self.selected_index {
            self.selected_index = self.selected_index + page_size;
        } else {
            self.selected_index = max_index;
        }
        self.update_scroll_offset(page_size);
    }

    /// Moves the selection back by `page_size`, stopping at the first entry,
    /// and scrolls to keep it in a window of `page_size` rows.
    pub fn move_selection_page_up(&mut self, page_size: usize)
        requires
            old(self).wf(),
        ensures
            final(self).wf(),
            final(self).same_but_view(old(self)),
            old(self).view().len() == 0 ==> *final(self) == *old(self),
            final(self).view() == old(self).view(),
            old(self).view().len() == 0 ==> final(self).selected() == old(self).selected()
                && final(self).scroll() == old(self).scroll(),
            old(self).view().len() > 0 ==> final(self).selected() == (if old(self).selected()
                >= page_size {
                old(self).selected() - page_size
            } else {
                0
            }) && final(self).scroll() == scrolled(
                final(self).selected(),
                old(self).scroll(),
                page_size as nat,
            ),
    {
        if self.filtered_skills.len() == 0 {
            return;
        }
        if self.selected_index >= page_size {
            self.selected_index = self.selected_index - page_size;
        } else {
            self.selected_index = 0;
        }
        self.update_scroll_offset(page_size);
    }

    fn update_scroll_offset(&mut self, visible_height: usize)
        ensures
            final(self).scroll() == scrolled(
                old(self).selected(),
                old(self).scroll(),
                visible_height as nat,
            ),
            final(self).same_but_view(old(self)),
            final(self).view() == old(self).view(),
            final(self).selected() == old(self).selected(),
            old(self).wf() ==> final(self).wf(),
    {
        if visible_height == 0 {
            return;
        }
        if self.selected_index < self.scroll_offset {
            self.scroll_offset = self.selected_index;
        } else if self.selected_index - self.scroll_offset >= visible_height {
            self.scroll_offset = self.selected_index - visible_height + 1;
        }
    }

    /// Replaces the search query and re-filters.
    pub fn set_search_query(&mut self, query: String)
        requires
            old(self).wf(),
        ensures
            final(self).wf(),
            final(self).query() == query@,
            final(self).shows_filter(),
            final(self).selected() == 0,
            final(self).scroll() == 0,
            final(self).skills_seq() == old(self).skills_seq(),
            final(self).mode() == old(self).mode(),
            final(self).input() == old(self).input(),
            final(self).favorite_ids() == old(self).favorite_ids(),
            final(self).recent_ids() == old(self).recent_ids(),
            final(self).settings() == old(self).settings(),
            final(self).texts() == old(self).texts(),
            final(self).same_output_state(old(self)),
    {
        self.search_query = query;
        self.apply_view_filter();
    }

    /// Types one character into the search query and re-filters.
    pub fn append_to_search(&mut self, ch: char)
        requires
            old(self).wf(),
        ensures
            final(self).wf(),
            final(self).query() == old(self).query().push(ch),
            final(self).shows_filter(),
            final(self).selected() == 0,
            final(self).scroll() == 0,
            final(self).skills_seq() == old(self).skills_seq(),
            final(self).mode() == old(self).mode(),
            final(self).input() == old(self).input(),
            final(self).favorite_ids() == old(self).favorite_ids(),
            final(self).recent_ids() == old(self).recent_ids(),
            final(self).settings() == old(self).settings(),
            final(self).texts() == old(self).texts(),
            final(self).same_output_state(old(self)),
    {
        push_char(&mut self.search_query, ch);
        self.apply_view_filter();
    }

    /// Deletes the last character of the search query and re-filters; does
    /// nothing when the query is empty.
    pub fn remove_from_search(&mut self)
        requires
            old(self).wf(),
        ensures
            final(self).wf(),
            old(self).query().len() == 0 ==> *final(self) == *old(self),
            old(self).query().len() > 0 ==> {
                &&& final(self).query() == old(self).query().drop_last()
                &&& final(self).shows_filter()
                &&& final(self).selected() == 0
                &&& final(self).scroll() == 0
                &&& final(self).skills_seq() == old(self).skills_seq()
                &&& final(self).mode() == old(self).mode()
                &&& final(self).input() == old(self).input()
                &&& final(self).favorite_ids() == old(self).favorite_ids()
                &&& final(self).recent_ids() == old(self).recent_ids()
                &&& final(self).settings() == old(self).settings()
                &&& final(self).texts() == old(self).texts()
                &&& final(self).same_output_state(old(self))
            },
    {
        if !self.search_query.as_str().is_empty() {
            pop_char(&mut self.search_query);
            self.apply_view_filter();
        }
    }

    /// Cycles the view mode All, Favorites, Recent, All, and re-filters.
    pub fn cycle_view_mode(&mut self)
        requires
            old(self).wf(),
        ensures
            final(self).wf(),
            final(self).mode() == match old(self).mode() {
                ViewMode::All => ViewMode::Favorites,
                ViewMode::Favorites => ViewMode::Recent,
                ViewMode::Recent => ViewMode::All,
            },
            final(self).shows_filter(),
            final(self).selected() == 0,
            final(self).scroll() == 0,
            final(self).skills_seq() == old(self).skills_seq(),
            final(self).query() == old(self).query(),
            final(self).input() == old(self).input(),
            final(self).favorite_ids() == old(self).favorite_ids(),
            final(self).recent_ids() == old(self).recent_ids(),
            final(self).settings() == old(self).settings(),
            final(self).texts() == old(self).texts(),
            final(self).same_output_state(old(self)),
    {
        self.view_mode = match self.view_mode {
            ViewMode::All => ViewMode::Favorites,
            ViewMode::Favorites => ViewMode::Recent,
            ViewMode::Recent => ViewMode::All,
        };
        self.apply_view_filter();
    }

    /// Records an execution of `skill_id`: it goes to the front of the
    /// recent list, any earlier occurrence is removed, and the list is cut
    /// to the configured length.
    pub fn add_to_recent(&mut self, skill_id: String)
        requires
            old(self).wf(),
        ensures
            final(self).wf(),
            texts_of(final(self).recent_ids()) == recent_after(
                texts_of(old(self).recent_ids()),
                skill_id@,
                old(self).max_recent(),
            ),
            final(self).skills_seq() == old(self).skills_seq(),
            final(self).view() == old(self).view(),
            final(self).selected() == old(self).selected(),
            final(self).scroll() == old(self).scroll(),
            final(self).query() == old(self).query(),
            final(self).mode() == old(self).mode(),
            final(self).input() == old(self).input(),
            final(self).favorite_ids() == old(self).favorite_ids(),
            final(self).settings() == old(self).settings(),
            final(self).texts() == old(self).texts(),
            final(self).same_output_state(old(self)),
    {
        let ghost id = skill_id@;
        let ghost before = texts_of(self.recent@);
        let mut next: Vec<String> = Vec::new();
        let mut i: usize = 0;
        while i < self.recent.len()
            invariant
                i <= self.recent@.len(),
                before == texts_of(self.recent@),
                id == skill_id@,
                texts_of(next@) == before.take(i as int).filter(other_than(id)),
            decreases self.recent@.len() - i,
        {
            proof {
                assert(before.take(i + 1) == before.take(i as int).push(before[i as int]));
                before.take(i as int).lemma_filter_push(before[i as int], other_than(id));
            }
            if !same_text(self.recent[i].as_str(), skill_id.as_str()) {
                let kept = self.recent[i].clone();
                next.push(kept);
                assert(texts_of(next@) =~= before.take(i as int).filter(other_than(id)).push(
                    before[i as int],
                ));
            }
            i = i + 1;
        }
        assert(before.take(before.len() as int) == before);
        next.insert(0, skill_id);
        assert(texts_of(next@) =~= seq![id] + before.filter(other_than(id)));
        next.truncate(self.config.max_recent_skills);
        proof {
            lemma_recent_bounded(before, id, self.config.max_recent_skills as nat);
        }
        assert(texts_of(next@) =~= recent_after(before, id, self.config.max_recent_skills as nat));
        self.recent = next;
    }

    /// Marks `skill_id` as a favourite (once).
    pub fn add_favorite(&mut self, skill_id: String)
        requires
            old(self).wf(),
        ensures
            final(self).wf(),
            texts_of(final(self).favorite_ids()) == if listed(old(self).favorite_ids(), skill_id@) {
                texts_of(old(self).favorite_ids())
            } else {
                texts_of(old(self).favorite_ids()).push(skill_id@)
            },
            final(self).skills_seq() == old(self).skills_seq(),
            final(self).view() == old(self).view(),
            final(self).selected() == old(self).selected(),
            final(self).scroll() == old(self).scroll(),
            final(self).query() == old(self).query(),
            final(self).mode() == old(self).mode(),
            final(self).input() == old(self).input(),
            final(self).recent_ids() == old(self).recent_ids(),
            final(self).settings() == old(self).settings(),
            final(self).texts() == old(self).texts(),
            final(self).same_output_state(old(self)),
    {
        let present = listed_in(&self.favorites, self.favorites.len(), skill_id.as_str());
        assert(self.favorites@.take(self.favorites@.len() as int) =~= self.favorites@);
        if !present {
            let ghost before = self.favorites@;
            self.favorites.push(skill_id);
            assert(texts_of(self.favorites@) =~= texts_of(before).push(skill_id@));
            assert(distinct_texts(self.favorites@)) by {
                let t = texts_of(self.favorites@);
                assert forall|i: int, j: int|
                    0 <= i < t.len() && 0 <= j < t.len() && i != j implies t[i] != t[j] by {
                    if i == before.len() {
                        assert(before[j]@ == t[j]);
                    } else if j == before.len() {
                        assert(before[i]@ == t[i]);
                    }
                }
            }
        }
    }
}

impl AppState {
    pub fn enter_insert_mode(&mut self)
        requires
            old(self).wf(),
        ensures
            final(self).wf(),
            final(self).input() == InputMode::Insert,
            final(self).skills_seq() == old(self).skills_seq(),
            final(self).view() == old(self).view(),
            final(self).selected() == old(self).selected(),
            final(self).scroll() == old(self).scroll(),
            final(self).query() == old(self).query(),
            final(self).mode() == old(self).mode(),
            final(self).favorite_ids() == old(self).favorite_ids(),
            final(self).recent_ids() == old(self).recent_ids(),
            final(self).settings() == old(self).settings(),
            final(self).texts() == old(self).texts(),
            final(self).same_output_state(old(self)),
    {
        self.input_mode = InputMode::Insert;
    }

    /// Returns to Normal mode; the search text is kept.
    pub fn enter_normal_mode(&mut self)
        requires
            old(self).wf(),
        ensures
            final(self).wf(),
            final(self).input() == InputMode::Normal,
            final(self).skills_seq() == old(self).skills_seq(),
            final(self).view() == old(self).view(),
            final(self).selected() == old(self).selected(),
            final(self).scroll() == old(self).scroll(),
            final(self).query() == old(self).query(),
            final(self).mode() == old(self).mode(),
            final(self).favorite_ids() == old(self).favorite_ids(),
            final(self).recent_ids() == old(self).recent_ids(),
            final(self).settings() == old(self).settings(),
            final(self).texts() == old(self).texts(),
            final(self).same_output_state(old(self)),
    {
        self.input_mode = InputMode::Normal;
    }

    pub fn input_mode(&self) -> (r: &InputMode)
        ensures
            *r == self.input(),
    {
        &self.input_mode
    }

    pub fn is_insert_mode(&self) -> (r: bool)
        ensures
            r == (self.input() == InputMode::Insert),
    {
        match self.input_mode {
            InputMode::Insert => true,
            InputMode::Normal => false,
        }
    }

    pub fn is_normal_mode(&self) -> (r: bool)
        ensures
            r == (self.input() == InputMode::Normal),
    {
        match self.input_mode {
            InputMode::Normal => true,
            InputMode::Insert => false,
        }
    }

    pub fn should_quit(&self) -> (r: bool)
        ensures
            r == self.quitting(),
    {
        self.should_quit
    }

    pub fn quit(&mut self)
        requires
            old(self).wf(),
        ensures
            final(self).wf(),
            final(self).quitting(),
            final(self).same_list_state(old(self)),
            final(self).executing() == old(self).executing(),
            final(self).status() == old(self).status(),
            final(self).output() == old(self).output(),
            final(self).panel_visible() == old(self).panel_visible(),
            final(self).output_scroll() == old(self).output_scroll(),
    {
        self.should_quit = true;
    }

    pub fn is_executing_inline(&self) -> (r: bool)
        ensures
            r == self.executing(),
    {
        self.executing_inline
    }

    /// The status line shown while an inline skill runs.
    pub fn inline_execution_status(&self) -> (r: Option<&str>)
        ensures
            r is None <==> self.status() is None,
            r matches Some(t) ==> self.status() matches Some(s) && t@ == s@,
    {
        match &self.inline_execution_status {
            Some(s) => Some(s.as_str()),
            None => None,
        }
    }

    /// Marks an inline execution of the skill named `skill_name` as running.
    pub fn start_inline_execution(&mut self, skill_name: String)
        requires
            old(self).wf(),
        ensures
            final(self).wf(),
            final(self).executing(),
            final(self).status() matches Some(s) && s@ == "Executing "@ + skill_name@ + "..."@,
            final(self).same_list_state(old(self)),
            final(self).quitting() == old(self).quitting(),
            final(self).output() == old(self).output(),
            final(self).panel_visible() == old(self).panel_visible(),
            final(self).output_scroll() == old(self).output_scroll(),
    {
        let mut status = String::from_str("Executing ");
        status.append(skill_name.as_str());
        status.append("...");
        self.executing_inline = true;
        self.inline_execution_status = Some(status);
    }

    /// Ends an inline execution and shows its output.
    pub fn finish_inline_execution(&mut self, output: SkillOutput)
        requires
            old(self).wf(),
        ensures
            final(self).wf(),
            !final(self).executing(),
            final(self).status() is None,
            final(self).output() == Some(output),
            final(self).panel_visible(),
            final(self).output_scroll() == 0,
            final(self).same_list_state(old(self)),
            final(self).quitting() == old(self).quitting(),
    {
        self.executing_inline = false;
        self.inline_execution_status = None;
        self.show_output_panel(output);
    }

    /// Shows `output` in the panel, scrolled to the top.
    pub fn show_output_panel(&mut self, output: SkillOutput)
        requires
            old(self).wf(),
        ensures
            final(self).wf(),
            final(self).output() == Some(output),
            final(self).panel_visible(),
            final(self).output_scroll() == 0,
            final(self).same_list_state(old(self)),
            final(self).quitting() == old(self).quitting(),
            final(self).executing() == old(self).executing(),
            final(self).status() == old(self).status(),
    {
        self.active_output = Some(output);
        self.output_panel_visible = true;
        self.output_scroll_offset = 0;
    }

    /// Hides the panel and drops its output; the list is navigated again.
    pub fn hide_output_panel(&mut self)
        requires
            old(self).wf(),
        ensures
            final(self).wf(),
            final(self).output() is None,
            !final(self).panel_visible(),
            final(self).output_scroll() == old(self).output_scroll(),
            final(self).same_list_state(old(self)),
            final(self).quitting() == old(self).quitting(),
            final(self).executing() == old(self).executing(),
            final(self).status() == old(self).status(),
    {
        self.output_panel_visible = false;
        self.active_output = None;
    }

    /// Scrolls the output up one line, stopping at the top.
    pub fn scroll_output_up(&mut self)
        requires
            old(self).wf(),
        ensures
            final(self).wf(),
            final(self).output_scroll() == if old(self).output_scroll() > 0 {
                (old(self).output_scroll() - 1) as nat
            } else {
                0
            },
            final(self).same_list_state(old(self)),
            final(self).quitting() == old(self).quitting(),
            final(self).executing() == old(self).executing(),
            final(self).status() == old(self).status(),
            final(self).output() == old(self).output(),
            final(self).panel_visible() == old(self).panel_visible(),
    {
        if self.output_scroll_offset > 0 {
            self.output_scroll_offset = self.output_scroll_offset - 1;
        }
    }

    /// Scrolls the output down one line, stopping where the last
    /// `OUTPUT_VISIBLE_LINES` lines fill the panel.
    pub fn scroll_output_down(&mut self)
        requires
            old(self).wf(),
        ensures
            final(self).wf(),
            final(self).output_scroll() == if old(self).output_scroll() < output_scroll_limit(
                old(self).output(),
            ) && old(self).output_scroll() < usize::MAX {
                old(self).output_scroll() + 1
            } else {
                old(self).output_scroll()
            },
            final(self).same_list_state(old(self)),
            final(self).quitting() == old(self).quitting(),
            final(self).executing() == old(self).executing(),
            final(self).status() == old(self).status(),
            final(self).output() == old(self).output(),
            final(self).panel_visible() == old(self).panel_visible(),
    {
        let max_offset: u128 = match &self.active_output {
            Some(output) => {
                let stdout_lines = count_lines(output.stdout.as_str()) as u128;
                let stderr_lines: u128 = if output.stderr.as_str().is_empty() {
                    0
                } else {
                    count_lines(output.stderr.as_str()) as u128 + 1
                };
                let total = stdout_lines + stderr_lines;
                if total > OUTPUT_VISIBLE_LINES as u128 {
                    total - OUTPUT_VISIBLE_LINES as u128
                } else {
                    0
                }
            },
            None => 0,
        };
        if (self.output_scroll_offset as u128) < max_offset && self.output_scroll_offset < usize::MAX {
            self.output_scroll_offset = self.output_scroll_offset + 1;
        }
    }

    pub fn is_output_panel_visible(&self) -> (r: bool)
        ensures
            r == self.panel_visible(),
    {
        self.output_panel_visible
    }

    pub fn active_output(&self) -> (r: Option<&SkillOutput>)
        ensures
            r is None <==> self.output() is None,
            r matches Some(o) ==> self.output() == Some(*o),
    {
        match &self.active_output {
            Some(o) => Some(o),
            None => None,
        }
    }

    pub fn output_scroll_offset(&self) -> (r: usize)
        ensures
            r == self.output_scroll(),
    {
        self.output_scroll_offset
    }

    /// The selected skill; `None` when the view is empty.
    pub fn selected_skill(&self) -> (r: Option<&Skill>)
        requires
            self.wf(),
        ensures
            r is None <==> self.view().len() == 0,
            r matches Some(s) ==> *s == self.skills_seq()[self.view()[self.selected() as int] as int],
    {
        if self.selected_index < self.filtered_skills.len() {
            let idx = self.filtered_skills[self.selected_index];
            Some(&self.skills[idx])
        } else {
            None
        }
    }

    /// The skills of the view, in view order.
    pub fn filtered_skills(&self) -> (r: Vec<&Skill>)
        requires
            self.wf(),
        ensures
            r@.len() == self.view().len(),
            forall|i: int|
                0 <= i < r@.len() ==> *r@[i] == self.skills_seq()[#[trigger] self.view()[i] as int],
    {
        let mut r: Vec<&Skill> = Vec::new();
        let mut i: usize = 0;
        while i < self.filtered_skills.len()
            invariant
                self.wf(),
                i <= self.filtered_skills@.len(),
                r@.len() == i,
                forall|j: int|
                    0 <= j < i ==> *r@[j] == self.skills@[#[trigger] self.filtered_skills@[j] as int],
            decreases self.filtered_skills@.len() - i,
        {
            let idx = self.filtered_skills[i];
            r.push(&self.skills[idx]);
            i = i + 1;
        }
        r
    }

    pub fn filtered_count(&self) -> (r: usize)
        ensures
            r == self.view().len(),
    {
        self.filtered_skills.len()
    }

    pub fn selected_index(&self) -> (r: usize)
        ensures
            r == self.selected(),
    {
        self.selected_index
    }

    pub fn scroll_offset(&self) -> (r: usize)
        ensures
            r == self.scroll(),
    {
        self.scroll_offset
    }

    pub fn search_query(&self) -> (r: &str)
        ensures
            r@ == self.query(),
    {
        self.search_query.as_str()
    }

    pub fn view_mode(&self) -> (r: &ViewMode)
        ensures
            *r == self.mode(),
    {
        &self.view_mode
    }

    pub fn config(&self) -> (r: &Config)
        ensures
            *r == self.settings(),
    {
        &self.config
    }

    /// The interface strings for the configured language.
    pub fn translations(&self) -> (r: &Translations)
        ensures
            *r == self.texts(),
    {
        &self.translations
    }
}

/// After any operation of the session the selection lies inside the view
/// whenever the view is non-empty (and is 0 when it is empty).
pub proof fn lemma_selection_in_view(s: AppState)
    requires
        s.wf(),
    ensures
        s.view().len() > 0 ==> s.selected() < s.view().len(),
        s.view().len() == 0 ==> s.selected() == 0,
{
}

} // verus!
