//! Merging the skills found in the discovery tiers into one collection.

use crate::skills::model::Skill;
use crate::text::same_text;
use vstd::prelude::*;

verus! {

/// No two skills share an identifier.
pub open spec fn distinct_ids(s: Seq<Skill>) -> bool {
    forall|i: int, j: int| 0 <= i < j < s.len() ==> #[trigger] s[i].id() != #[trigger] s[j].id()
}

/// `s` has an entry with the identifier of `k` from a tier at least as high.
pub open spec fn outranked_in(s: Seq<Skill>, k: Skill) -> bool {
    exists|i: int| 0 <= i < s.len() && #[trigger] s[i].id() == k.id() && k.source.rank() <= s[i].source.rank()
}

/// Position in `s` of the skill with identifier `id`, if any.
fn position_of(s: &Vec<Skill>, id: &str) -> (r: Option<usize>)
    ensures
        r matches Some(j) ==> j < s@.len() && s@[j as int].id() == id@,
        r is None ==> forall|i: int| 0 <= i < s@.len() ==> #[trigger] s@[i].id() != id@,
{
    let mut j: usize = 0;
    while j < s.len()
        invariant
            j <= s@.len(),
            forall|i: int| 0 <= i < j ==> #[trigger] s@[i].id() != id@,
        decreases s@.len() - j,
    {
        if same_text(s[j].manifest.id.as_str(), id) {
            return Some(j);
        }
        j = j + 1;
    }
    None
}

/// No valid skill found after position `p` with the same identifier comes
/// from a tier as high as that of the skill at `p`.
pub open spec fn last_of_best(found: Seq<Skill>, p: int) -> bool {
    forall|k: int|
        p < k < found.len() && (#[trigger] found[k]).manifest.valid() && found[k].id()
            == found[p].id() ==> found[k].source.rank() < found[p].source.rank()
}

/// `s` is the skill found at a position `p` that is the last of the
/// highest-precedence valid skills with its identifier.
pub open spec fn kept_from(found: Seq<Skill>, s: Skill) -> bool {
    exists|p: int| 0 <= p < found.len() && #[trigger] found[p] == s && last_of_best(found, p)
}

/// Merges the skills found in all tiers, ignoring those whose manifest is
/// not valid: one skill per identifier, the one from the highest-precedence
/// tier that has it (of two in the same tier, the later). Order of the
/// result is unspecified.
pub fn discover_skills(found: Vec<Skill>) -> (r: Vec<Skill>)
    ensures
        distinct_ids(r@),
        forall|i: int| 0 <= i < r@.len() ==> (#[trigger] r@[i]).manifest.valid(),
        forall|i: int| 0 <= i < r@.len() ==> found@.contains(#[trigger] r@[i]),
        forall|i: int| 0 <= i < r@.len() ==> kept_from(found@, #[trigger] r@[i]),
        forall|k: int|
            0 <= k < found@.len() && (#[trigger] found@[k]).manifest.valid() ==> outranked_in(
                r@,
                found@[k],
            ),
{
    let ghost input = found@;
    let mut found = found;
    let mut result: Vec<Skill> = Vec::new();
    let ghost mut pos: Seq<int> = Seq::empty();
    while found.len() > 0
        invariant
            found@ == input.take(found@.len() as int),
            found@.len() <= input.len(),
            distinct_ids(result@),
            pos.len() == result@.len(),
            forall|i: int|
                0 <= i < result@.len() ==> found@.len() <= #[trigger] pos[i] < input.len()
                    && input[pos[i]] == result@[i] && last_of_best(input, pos[i]),
            forall|i: int| 0 <= i < result@.len() ==> (#[trigger] result@[i]).manifest.valid(),
            forall|k: int|
                found@.len() <= k < input.len() && (#[trigger] input[k]).manifest.valid()
                    ==> outranked_in(result@, input[k]),
        decreases found@.len(),
    {
        let ghost before = result@;
        let ghost n = found@.len();
        let s = found.pop().unwrap();
        assert(s == input[n - 1]);
        assert(found@ =~= input.take(n - 1));
        if s.manifest.validate().is_ok() {
            match position_of(&result, s.manifest.id.as_str()) {
                None => {
                    assert(last_of_best(input, n - 1)) by {
                        assert forall|k: int|
                            n - 1 < k < input.len() && (#[trigger] input[k]).manifest.valid()
                                && input[k].id() == input[n - 1].id() implies input[k].source.rank()
                            < input[n - 1].source.rank() by {
                            assert(outranked_in(before, input[k]));
                            let i = choose|i: int|
                                0 <= i < before.len() && #[trigger] before[i].id() == input[k].id()
                                    && input[k].source.rank() <= before[i].source.rank();
                            assert(before[i].id() == s.manifest.id@);
                        }
                    }
                    result.push(s);
                    proof {
                        pos = pos.push(n - 1);
                    }
                    assert forall|k: int|
                        found@.len() <= k < input.len() && (#[trigger] input[k]).manifest.valid()
                            implies outranked_in(result@, input[k]) by {
                        if k == n - 1 {
                            assert(result@[before.len() as int] == s);
                        } else {
                            let i = choose|i: int|
                                0 <= i < before.len() && #[trigger] before[i].id() == input[k].id()
                                    && input[k].source.rank() <= before[i].source.rank();
                            assert(result@[i] == before[i]);
                        }
                    }
                    assert forall|i: int| 0 <= i < result@.len() implies found@.len()
                        <= #[trigger] pos[i] < input.len() && input[pos[i]] == result@[i]
                        && last_of_best(input, pos[i]) by {
                        if i < before.len() {
                            assert(result@[i] == before[i]);
                        }
                    }
                    assert forall|i: int| 0 <= i < result@.len() implies (#[trigger] result@[
                        i
                    ]).manifest.valid() by {
                        if i < before.len() {
                            assert(result@[i] == before[i]);
                        }
                    }
                },
                Some(j) => {
                    if s.source.precedence() > result[j].source.precedence() {
                        assert(last_of_best(input, n - 1)) by {
                            assert forall|k: int|
                                n - 1 < k < input.len() && (#[trigger] input[k]).manifest.valid()
                                    && input[k].id() == input[n - 1].id() implies input[
                                k
                            ].source.rank() < input[n - 1].source.rank() by {
                                assert(outranked_in(before, input[k]));
                                let i = choose|i: int|
                                    0 <= i < before.len() && #[trigger] before[i].id()
                                        == input[k].id() && input[k].source.rank()
                                        <= before[i].source.rank();
                                if i != j {
                                    if i < j {
                                        assert(before[i].id() != before[j as int].id());
                                    } else {
                                        assert(before[j as int].id() != before[i].id());
                                    }
                                }
                            }
                        }
                        result.remove(j);
                        result.insert(j, s);
                        assert(result@ =~= before.update(j as int, s));
                        proof {
                            pos = pos.update(j as int, n - 1);
                        }
                        assert forall|k: int|
                            found@.len() <= k < input.len() && (#[trigger] input[k]).manifest.valid()
                                implies outranked_in(result@, input[k]) by {
                            if k == n - 1 {
                                assert(result@[j as int] == s);
                            } else {
                                let i = choose|i: int|
                                    0 <= i < before.len() && #[trigger] before[i].id()
                                        == input[k].id() && input[k].source.rank()
                                        <= before[i].source.rank();
                                assert(result@[i].id() == before[i].id());
                            }
                        }
                        assert forall|i: int| 0 <= i < result@.len() implies found@.len()
                            <= #[trigger] pos[i] < input.len() && input[pos[i]] == result@[i]
                            && last_of_best(input, pos[i]) by {
                            if i != j {
                                assert(result@[i] == before[i]);
                            }
                        }
                        assert forall|i: int| 0 <= i < result@.len() implies (#[trigger] result@[
                            i
                        ]).manifest.valid() by {
                            if i != j {
                                assert(result@[i] == before[i]);
                            }
                        }
                    } else {
                        assert(outranked_in(result@, input[n - 1])) by {
                            assert(result@[j as int].id() == input[n - 1].id());
                        }
                    }
                },
            }
        }
    }
    assert forall|i: int| 0 <= i < result@.len() implies input.contains(#[trigger] result@[i])
        && kept_from(input, result@[i]) by {
        assert(input[pos[i]] == result@[i]);
    }
    result
}

/// After a merge, the skill kept for an identifier comes from the highest
/// tier that had that identifier: no valid found skill with the same
/// identifier has a higher precedence.
pub proof fn lemma_highest_tier_kept(found: Seq<Skill>, merged: Seq<Skill>, i: int, k: int)
    requires
        distinct_ids(merged),
        forall|k: int|
            0 <= k < found.len() && (#[trigger] found[k]).manifest.valid() ==> outranked_in(
                merged,
                found[k],
            ),
        0 <= i < merged.len(),
        0 <= k < found.len(),
        found[k].manifest.valid(),
        found[k].id() == merged[i].id(),
    ensures
        found[k].source.rank() <= merged[i].source.rank(),
{
    assert(outranked_in(merged, found[k]));
    let j = choose|j: int|
        0 <= j < merged.len() && #[trigger] merged[j].id() == found[k].id()
            && found[k].source.rank() <= merged[j].source.rank();
    if j != i {
        if j < i {
            assert(merged[j].id() != merged[i].id());
        } else {
            assert(merged[i].id() != merged[j].id());
        }
    }
}

} // verus!
