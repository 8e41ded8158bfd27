//! The value tree's expansion state: which value paths are expanded, and the
//! generation that tells a fresh set of tree rows from a stale one.
use vstd::prelude::*;

use crate::text_metrics::str_is;

verus! {

/// Which value paths of a tab's tree are expanded, and the generation of the
/// tree rows that were asked for last.
#[derive(Debug, Clone, PartialEq, Eq)]
pub struct ValueTreeState {
    /// The expanded paths, each once.
    pub expanded_paths: Vec<String>,
    pub generation: u64,
}

/// The set of paths a list holds.
pub open spec fn path_set(paths: Seq<String>) -> Set<Seq<char>> {
    Set::new(|p: Seq<char>| exists|i: int| 0 <= i < paths.len() && #[trigger] paths[i]@ == p)
}

/// No path occurs twice in the list.
pub open spec fn paths_distinct(paths: Seq<String>) -> bool {
    forall|i: int, j: int|
        0 <= i < paths.len() && 0 <= j < paths.len() && i != j ==> #[trigger] paths[i]@
            != #[trigger] paths[j]@
}

/// The set once `path` is toggled: taken out when it is in, put in otherwise.
pub open spec fn toggled(set: Set<Seq<char>>, path: Seq<char>) -> Set<Seq<char>> {
    if set.contains(path) {
        set.remove(path)
    } else {
        set.insert(path)
    }
}

/// Toggling a path twice leaves the set of expanded paths as it was.
pub proof fn lemma_toggle_twice_restores(set: Set<Seq<char>>, path: Seq<char>)
    ensures
        toggled(toggled(set, path), path) == set,
{
    assert(toggled(toggled(set, path), path) =~= set);
}

/// The next generation, saturating.
pub open spec fn next_generation(g: u64) -> u64 {
    if g < u64::MAX {
        (g + 1) as u64
    } else {
        g
    }
}

/// Every path kept so far differs from `path` and comes from the first `i`
/// entries of `before`.
#[verifier::opaque]
pub open spec fn kept_from(before: Seq<String>, path: Seq<char>, i: int, kept: Seq<String>) -> bool {
    forall|k: int|
        0 <= k < kept.len() ==> #[trigger] kept[k]@ != path && exists|j: int|
            0 <= j < i && before[j]@ == kept[k]@
}

/// Every one of the first `i` entries of `before` other than `path` is kept.
#[verifier::opaque]
pub open spec fn kept_covers(before: Seq<String>, path: Seq<char>, i: int, kept: Seq<String>) -> bool {
    forall|j: int|
        0 <= j < i && #[trigger] before[j]@ != path ==> exists|k: int|
            0 <= k < kept.len() && kept[k]@ == before[j]@
}

proof fn lemma_skip_step(before: Seq<String>, path: Seq<char>, i: int, kept: Seq<String>)
    requires
        0 <= i < before.len(),
        before[i]@ == path,
        kept_from(before, path, i, kept),
        kept_covers(before, path, i, kept),
    ensures
        kept_from(before, path, i + 1, kept),
        kept_covers(before, path, i + 1, kept),
{
    reveal(kept_from);
    reveal(kept_covers);
    assert forall|k: int| 0 <= k < kept.len() implies #[trigger] kept[k]@ != path && exists|j: int|
        0 <= j < i + 1 && before[j]@ == kept[k]@ by {
        let j = choose|j: int| 0 <= j < i && before[j]@ == kept[k]@;
    }
}

proof fn lemma_keep_step(
    before: Seq<String>,
    path: Seq<char>,
    i: int,
    old_kept: Seq<String>,
    kept: Seq<String>,
)
    requires
        0 <= i < before.len(),
        before[i]@ != path,
        kept.len() == old_kept.len() + 1,
        forall|k: int| 0 <= k < old_kept.len() ==> kept[k] == old_kept[k],
        kept[old_kept.len() as int]@ == before[i]@,
        kept_from(before, path, i, old_kept),
        kept_covers(before, path, i, old_kept),
        paths_distinct(before) ==> paths_distinct(old_kept),
    ensures
        kept_from(before, path, i + 1, kept),
        kept_covers(before, path, i + 1, kept),
        paths_distinct(before) ==> paths_distinct(kept),
{
    reveal(kept_from);
    reveal(kept_covers);
    let n = old_kept.len() as int;
    assert forall|k: int| 0 <= k < kept.len() implies #[trigger] kept[k]@ != path && exists|j: int|
        0 <= j < i + 1 && before[j]@ == kept[k]@ by {
        if k < n {
            assert(kept[k] == old_kept[k]);
            let j = choose|j: int| 0 <= j < i && before[j]@ == old_kept[k]@;
        } else {
            assert(before[i]@ == kept[k]@);
        }
    }
    assert forall|j: int| 0 <= j < i + 1 && #[trigger] before[j]@ != path implies exists|k: int|
        0 <= k < kept.len() && kept[k]@ == before[j]@ by {
        if j < i {
            let k = choose|k: int| 0 <= k < n && old_kept[k]@ == before[j]@;
            assert(kept[k] == old_kept[k]);
        } else {
            assert(kept[n]@ == before[j]@);
        }
    }
    if paths_distinct(before) {
        assert forall|a: int, b: int|
            0 <= a < kept.len() && 0 <= b < kept.len() && a != b implies #[trigger] kept[a]@
            != #[trigger] kept[b]@ by {
            if a < n && b < n {
                assert(kept[a] == old_kept[a]);
                assert(kept[b] == old_kept[b]);
            } else if a < n {
                assert(kept[a] == old_kept[a]);
                let j = choose|j: int| 0 <= j < i && before[j]@ == old_kept[a]@;
                assert(before[j]@ != before[i]@);
            } else if b < n {
                assert(kept[b] == old_kept[b]);
                let j = choose|j: int| 0 <= j < i && before[j]@ == old_kept[b]@;
                assert(before[j]@ != before[i]@);
            }
        }
    }
}

/// Toggles whether `path` is expanded and starts a new generation of tree
/// rows.
pub fn toggle_expanded_path(tree: &mut ValueTreeState, path: String)
    ensures
        path_set(final(tree).expanded_paths@) == toggled(
            path_set(old(tree).expanded_paths@),
            path@,
        ),
        paths_distinct(old(tree).expanded_paths@) ==> paths_distinct(final(tree).expanded_paths@),
        final(tree).generation == next_generation(old(tree).generation),
{
    let ghost before = tree.expanded_paths@;
    let mut kept: Vec<String> = Vec::new();
    let mut found = false;
    let mut i: usize = 0;
    proof {
        reveal(kept_from);
        reveal(kept_covers);
    }
    while i < tree.expanded_paths.len()
        invariant
            tree.expanded_paths@ == before,
            0 <= i <= before.len(),
            found == exists|j: int| 0 <= j < i && #[trigger] before[j]@ == path@,
            kept_from(before, path@, i as int, kept@),
            kept_covers(before, path@, i as int, kept@),
            paths_distinct(before) ==> paths_distinct(kept@),
        decreases before.len() - i,
    {
        let is_path = str_is(tree.expanded_paths[i].as_str(), path.as_str());
        let ghost old_kept = kept@;
        if is_path {
            found = true;
            proof {
                lemma_skip_step(before, path@, i as int, kept@);
            }
        } else {
            let p = tree.expanded_paths[i].clone();
            kept.push(p);
            proof {
                lemma_keep_step(before, path@, i as int, old_kept, kept@);
            }
        }
        i += 1;
    }
    let ghost filtered = kept@;
    proof {
        reveal(kept_from);
        reveal(kept_covers);
        let s0 = path_set(before);
        assert forall|p: Seq<char>| #[trigger] path_set(filtered).contains(p) == s0.remove(path@).contains(p) by {
            if path_set(filtered).contains(p) {
                let k = choose|k: int| 0 <= k < filtered.len() && #[trigger] filtered[k]@ == p;
                let j = choose|j: int| 0 <= j < before.len() && before[j]@ == filtered[k]@;
                assert(before[j]@ == p);
            }
            if s0.remove(path@).contains(p) {
                let j = choose|j: int| 0 <= j < before.len() && #[trigger] before[j]@ == p;
                let k = choose|k: int| 0 <= k < filtered.len() && filtered[k]@ == before[j]@;
                assert(filtered[k]@ == p);
            }
        }
        assert(path_set(filtered) =~= s0.remove(path@));
        if found {
            let j = choose|j: int| 0 <= j < before.len() && #[trigger] before[j]@ == path@;
            assert(s0.contains(path@));
        } else {
            assert(!s0.contains(path@));
        }
    }
    if !found {
        kept.push(path);
        proof {
            let s0 = path_set(before);
            assert(kept@[filtered.len() as int]@ == path@);
            assert forall|p: Seq<char>| #[trigger] path_set(kept@).contains(p) == s0.insert(path@).contains(p) by {
                if path_set(kept@).contains(p) {
                    let k = choose|k: int| 0 <= k < kept@.len() && #[trigger] kept@[k]@ == p;
                    if k < filtered.len() {
                        assert(filtered[k]@ == p);
                        assert(path_set(filtered).contains(p));
                    }
                }
                if s0.insert(path@).contains(p) && p != path@ {
                    assert(path_set(filtered).contains(p));
                    let k = choose|k: int| 0 <= k < filtered.len() && #[trigger] filtered[k]@ == p;
                    assert(kept@[k] == filtered[k]);
                }
            }
            assert(path_set(kept@) =~= toggled(s0, path@));
            assert forall|a: int, b: int|
                0 <= a < kept@.len() && 0 <= b < kept@.len() && a != b && paths_distinct(
                    filtered,
                ) implies #[trigger] kept@[a]@ != #[trigger] kept@[b]@ by {
                if a < filtered.len() && b < filtered.len() {
                    assert(kept@[a] == filtered[a]);
                    assert(kept@[b] == filtered[b]);
                } else if a < filtered.len() {
                    assert(kept@[a] == filtered[a]);
                } else {
                    assert(kept@[b] == filtered[b]);
                }
            }
        }
    }
    tree.expanded_paths = kept;
    tree.generation = tree.generation.saturating_add(1);
}

} // verus!
