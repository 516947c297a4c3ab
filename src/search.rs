//! Fuzzy search over skills: which skills match a query, best first.

use crate::skills::Skill;
use crate::text::{ascii_lowered, ascii_text, lowercase_of, lowercase_text};
use nucleo_matcher::pattern::{CaseMatching, Normalization, Pattern};
use nucleo_matcher::{Matcher, Utf32Str};
use vstd::prelude::*;

verus! {

/// The score nucleo gives `text` for the pattern `query` (case ignored,
/// smart normalisation), or `None` when the text does not match.
pub uninterp spec fn fuzzy_score_of(query: Seq<char>, text: Seq<char>) -> Option<u32>;

/// Relies on nucleo_matcher's `Pattern::parse` and `Pattern::score` with the
/// default matcher configuration: the score is a function of the pattern
/// text and the haystack (the matcher only holds scratch space).
#[verifier::external_body]
fn fuzzy_score(query: &str, text: &str) -> (r: Option<u32>)
    ensures
        r == fuzzy_score_of(query@, text@),
{
    let mut matcher = Matcher::new(nucleo_matcher::Config::DEFAULT);
    let pattern = Pattern::parse(query, CaseMatching::Ignore, Normalization::Smart);
    let mut buf = Vec::new();
    pattern.score(Utf32Str::new(text, &mut buf), &mut matcher)
}

/// The texts joined with `sep` between each two.
pub open spec fn joined(texts: Seq<Seq<char>>, sep: Seq<char>) -> Seq<char>
    decreases texts.len(),
{
    if texts.len() == 0 {
        Seq::empty()
    } else if texts.len() == 1 {
        texts[0]
    } else {
        joined(texts.drop_last(), sep) + sep + texts.last()
    }
}

/// The characters of each string.
pub open spec fn texts_of(v: Seq<String>) -> Seq<Seq<char>> {
    v.map_values(|s: String| s@)
}

/// The better of two optional scores.
pub open spec fn better(a: Option<u32>, b: Option<u32>) -> Option<u32> {
    match (a, b) {
        (Some(x), Some(y)) => Some(if x >= y { x } else { y }),
        (Some(x), None) => Some(x),
        (None, _) => b,
    }
}

/// Best score of a skill over its name, identifier, tags (joined by a
/// space, when it has any) and description.
pub open spec fn skill_score(query: Seq<char>, skill: Skill) -> Option<u32> {
    let m = skill.manifest;
    let tags = if m.tags@.len() > 0 {
        fuzzy_score_of(query, joined(texts_of(m.tags@), " "@))
    } else {
        None
    };
    better(
        better(better(fuzzy_score_of(query, m.name@), fuzzy_score_of(query, m.id@)), tags),
        fuzzy_score_of(query, m.description@),
    )
}

/// The score of a matching skill; `0` for one that does not match.
pub open spec fn score_or_zero(query: Seq<char>, skill: Skill) -> u32 {
    match skill_score(query, skill) {
        Some(x) => x,
        None => 0,
    }
}

/// `r` lists, each once and best first, the indices of the skills of
/// `skills` that match `query`.
pub open spec fn ranked(r: Seq<usize>, query: Seq<char>, skills: Seq<Skill>) -> bool {
    &&& forall|i: int, j: int| 0 <= i < j < r.len() ==> r[i] != r[j]
    &&& forall|i: int|
        0 <= i < r.len() ==> #[trigger] r[i] < skills.len() && skill_score(query, skills[r[i] as int])
            is Some
    &&& forall|k: int|
        0 <= k < skills.len() && (#[trigger] skill_score(query, skills[k])) is Some ==> r.contains(
            k as usize,
        )
    &&& forall|i: int, j: int|
        0 <= i < j < r.len() ==> score_or_zero(query, skills[r[i] as int]) >= score_or_zero(
            query,
            skills[r[j] as int],
        )
}

/// What `filter_skills` returns: every index in order for an empty query;
/// otherwise the matching indices, best first, for the query in lowercase.
pub open spec fn filtered(r: Seq<usize>, query: Seq<char>, skills: Seq<Skill>) -> bool {
    if query.len() == 0 {
        r == Seq::new(skills.len(), |i: int| i as usize)
    } else {
        ranked(r, lowercase_of(query), skills)
    }
}

/// The tags joined by single spaces.
fn join_tags(tags: &Vec<String>) -> (r: String)
    ensures
        r@ == joined(texts_of(tags@), " "@),
{
    let mut s = String::new();
    let mut i: usize = 0;
    while i < tags.len()
        invariant
            i <= tags@.len(),
            s@ == joined(texts_of(tags@).take(i as int), " "@),
        decreases tags@.len() - i,
    {
        let ghost prev = texts_of(tags@).take(i as int);
        if i > 0 {
            s.append(" ");
        }
        s.append(tags[i].as_str());
        let ghost next = texts_of(tags@).take(i + 1);
        assert(next.drop_last() =~= prev);
        assert(next.last() == tags@[i as int]@);
        if i == 0 {
            assert(s@ =~= joined(next, " "@));
        }
        i = i + 1;
    }
    assert(texts_of(tags@).take(tags@.len() as int) =~= texts_of(tags@));
    s
}

fn better_of(a: Option<u32>, b: Option<u32>) -> (r: Option<u32>)
    ensures
        r == better(a, b),
{
    match (a, b) {
        (Some(x), Some(y)) => Some(if x >= y { x } else { y }),
        (Some(x), None) => Some(x),
        (None, _) => b,
    }
}

/// Best score of `skill` for `query`, `None` when no field matches.
fn score_skill(query: &str, skill: &Skill) -> (r: Option<u32>)
    ensures
        r == skill_score(query@, *skill),
{
    let m = &skill.manifest;
    let mut best = better_of(fuzzy_score(query, m.name.as_str()), fuzzy_score(query, m.id.as_str()));
    if m.tags.len() > 0 {
        let tags = join_tags(&m.tags);
        best = better_of(best, fuzzy_score(query, tags.as_str()));
    }
    better_of(best, fuzzy_score(query, m.description.as_str()))
}

/// Indices of the skills matching `query`, best first; every index, in
/// order, for an empty query. Case is ignored.
pub fn filter_skills(query: &str, skills: &[Skill]) -> (r: Vec<usize>)
    ensures
        filtered(r@, query@, skills@),
        ascii_text(query@) ==> lowercase_of(query@) == ascii_lowered(query@),
{
    let folded = lowercase_text(query);
    if query.is_empty() {
        let mut all: Vec<usize> = Vec::new();
        let mut i: usize = 0;
        while i < skills.len()
            invariant
                i <= skills@.len(),
                all@ == Seq::new(i as nat, |k: int| k as usize),
            decreases skills@.len() - i,
        {
            all.push(i);
            i = i + 1;
            assert(all@ =~= Seq::new(i as nat, |k: int| k as usize));
        }
        return all;
    }
    let ghost q = lowercase_of(query@);
    // Pairs of index and score, best first; equal scores keep index order.
    let mut ranked_pairs: Vec<(usize, u32)> = Vec::new();
    let mut k: usize = 0;
    while k < skills.len()
        invariant
            k <= skills@.len(),
            folded@ == q,
            forall|i: int, j: int|
                0 <= i < j < ranked_pairs@.len() ==> ranked_pairs@[i].0 != ranked_pairs@[j].0,
            forall|i: int|
                0 <= i < ranked_pairs@.len() ==> #[trigger] ranked_pairs@[i].0 < k
                    && skill_score(q, skills@[ranked_pairs@[i].0 as int]) == Some(
                    ranked_pairs@[i].1,
                ),
            forall|m: int|
                0 <= m < k && (#[trigger] skill_score(q, skills@[m])) is Some ==> exists|i: int|
                    0 <= i < ranked_pairs@.len() && ranked_pairs@[i].0 == m,
            forall|i: int, j: int|
                0 <= i < j < ranked_pairs@.len() ==> ranked_pairs@[i].1 >= ranked_pairs@[j].1,
        decreases skills@.len() - k,
    {
        match score_skill(folded.as_str(), &skills[k]) {
            None => {},
            Some(score) => {
                let ghost before = ranked_pairs@;
                let mut p: usize = 0;
                while p < ranked_pairs.len() && ranked_pairs[p].1 >= score
                    invariant
                        p <= ranked_pairs@.len(),
                        ranked_pairs@ == before,
                        forall|i: int| 0 <= i < p ==> ranked_pairs@[i].1 >= score,
                    decreases ranked_pairs@.len() - p,
                {
                    p = p + 1;
                }
                ranked_pairs.insert(p, (k, score));
                assert(ranked_pairs@ == before.insert(p as int, (k, score)));
                assert forall|i: int| 0 <= i < ranked_pairs@.len() implies #[trigger] ranked_pairs@[
                    i
                ].0 <= k && skill_score(q, skills@[ranked_pairs@[i].0 as int]) == Some(
                    ranked_pairs@[i].1,
                ) by {
                    if i < p {
                        assert(ranked_pairs@[i] == before[i]);
                    } else if i > p {
                        assert(ranked_pairs@[i] == before[i - 1]);
                    }
                }
                assert forall|m: int|
                    0 <= m <= k && (#[trigger] skill_score(q, skills@[m])) is Some implies exists|
                    i: int,
                |
                    0 <= i < ranked_pairs@.len() && ranked_pairs@[i].0 == m by {
                    if m == k {
                        assert(ranked_pairs@[p as int].0 == m);
                    } else {
                        let i = choose|i: int| 0 <= i < before.len() && before[i].0 == m;
                        if i < p {
                            assert(ranked_pairs@[i] == before[i]);
                        } else {
                            assert(ranked_pairs@[i + 1] == before[i]);
                        }
                    }
                }
                assert forall|i: int, j: int|
                    0 <= i < j < ranked_pairs@.len() implies ranked_pairs@[i].1
                    >= ranked_pairs@[j].1 && ranked_pairs@[i].0 != ranked_pairs@[j].0 by {
                    if j < p {
                        assert(ranked_pairs@[i] == before[i] && ranked_pairs@[j] == before[j]);
                    } else if j == p {
                        assert(ranked_pairs@[i] == before[i]);
                    } else if i < p {
                        assert(ranked_pairs@[i] == before[i] && ranked_pairs@[j] == before[j - 1]);
                    } else if i == p {
                        assert(ranked_pairs@[j] == before[j - 1]);
                        if j - 1 >= p {
                            assert(!(before[p as int].1 >= score));
                        }
                    } else {
                        assert(ranked_pairs@[i] == before[i - 1] && ranked_pairs@[j] == before[j
                            - 1]);
                    }
                }
            },
        }
        k = k + 1;
    }
    let mut r: Vec<usize> = Vec::new();
    let mut i: usize = 0;
    while i < ranked_pairs.len()
        invariant
            i <= ranked_pairs@.len(),
            r@.len() == i,
            forall|j: int| 0 <= j < i ==> r@[j] == ranked_pairs@[j].0,
        decreases ranked_pairs@.len() - i,
    {
        r.push(ranked_pairs[i].0);
        i = i + 1;
    }
    assert forall|m: int|
        0 <= m < skills@.len() && (#[trigger] skill_score(q, skills@[m])) is Some implies r@.contains(
        m as usize,
    ) by {
        let i = choose|i: int| 0 <= i < ranked_pairs@.len() && ranked_pairs@[i].0 == m;
        assert(r@[i] == m as usize);
    }
    r
}

/// Search ignores case: two non-empty queries with the same lowercase form
/// select the same skills.
pub proof fn lemma_search_ignores_case(
    q1: Seq<char>,
    q2: Seq<char>,
    skills: Seq<Skill>,
    r1: Seq<usize>,
    r2: Seq<usize>,
)
    requires
        filtered(r1, q1, skills),
        filtered(r2, q2, skills),
        q1.len() > 0,
        q2.len() > 0,
        lowercase_of(q1) == lowercase_of(q2),
    ensures
        forall|k: usize| r1.contains(k) <==> r2.contains(k),
{
    let q = lowercase_of(q1);
    assert forall|k: usize| r1.contains(k) implies r2.contains(k) by {
        let i = choose|i: int| 0 <= i < r1.len() && r1[i] == k;
        assert(r1[i] < skills.len());
        assert(skill_score(q, skills[k as int]) is Some);
    }
    assert forall|k: usize| r2.contains(k) implies r1.contains(k) by {
        let i = choose|i: int| 0 <= i < r2.len() && r2[i] == k;
        assert(r2[i] < skills.len());
        assert(skill_score(q, skills[k as int]) is Some);
    }
}

/// Search ignores the case of ASCII letters: two ASCII queries that differ
/// only in case (as "DEBUG" and "debug") select the same skills.
pub proof fn lemma_search_ignores_ascii_case(
    q1: Seq<char>,
    q2: Seq<char>,
    skills: Seq<Skill>,
    r1: Seq<usize>,
    r2: Seq<usize>,
)
    requires
        filtered(r1, q1, skills),
        filtered(r2, q2, skills),
        ascii_text(q1) ==> lowercase_of(q1) == ascii_lowered(q1),
        ascii_text(q2) ==> lowercase_of(q2) == ascii_lowered(q2),
        ascii_text(q1),
        ascii_text(q2),
        ascii_lowered(q1) == ascii_lowered(q2),
    ensures
        forall|k: usize| r1.contains(k) <==> r2.contains(k),
{
    assert(ascii_lowered(q1).len() == q1.len() && ascii_lowered(q2).len() == q2.len());
    if q1.len() > 0 {
        lemma_search_ignores_case(q1, q2, skills, r1, r2);
    }
}

} // verus!
