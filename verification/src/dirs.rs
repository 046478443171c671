//! Pruning the watched tree: out of every directory enumerated under the
//! root, keep those whose path holds no excluded basename. An excluded
//! directory disappears together with all of its descendants, since each
//! descendant carries the excluded name as one of its path segments.
//!
//! The traversal itself is the enumerating collaborator's work; it hands in
//! each directory as the sequence of its path segments relative to the
//! root.

use vstd::prelude::*;
use vstd::seq_lib::group_seq_properties;

verus! {

/// Whether a directory, given as its path segments, stays in the watch
/// set: none of its segments is an excluded basename.
pub open spec fn kept_dir(dir: Seq<Seq<char>>, excluded: Seq<Seq<char>>) -> bool {
    forall|j: int| 0 <= j < dir.len() ==> !excluded.contains(#[trigger] dir[j])
}

/// The directories that remain watched: those the exclusion set prunes
/// nothing from, in enumeration order.
pub open spec fn watched_subset(dirs: Seq<Seq<Seq<char>>>, excluded: Seq<Seq<char>>) -> Seq<
    Seq<Seq<char>>,
> {
    dirs.filter(|d: Seq<Seq<char>>| kept_dir(d, excluded))
}

/// Whether this name is one of the excluded basenames.
fn name_excluded(name: &String, excluded: &Vec<String>) -> (r: bool)
    ensures
        r == excluded.deep_view().contains(name@),
{
    let mut k: usize = 0;
    while k < excluded.len()
        invariant
            k <= excluded.len(),
            forall|k2: int| 0 <= k2 < k ==> excluded.deep_view()[k2] != name@,
        decreases excluded.len() - k,
    {
        if excluded[k] == *name {
            proof {
                assert(excluded.deep_view()[k as int] == name@);
            }
            return true;
        }
        k += 1;
    }
    false
}

/// Whether this directory stays in the watch set.
fn dir_is_kept(dir: &Vec<String>, excluded: &Vec<String>) -> (r: bool)
    ensures
        r == kept_dir(dir.deep_view(), excluded.deep_view()),
{
    let mut j: usize = 0;
    while j < dir.len()
        invariant
            j <= dir.len(),
            forall|j2: int|
                0 <= j2 < j ==> !excluded.deep_view().contains(#[trigger] dir.deep_view()[j2]),
        decreases dir.len() - j,
    {
        if name_excluded(&dir[j], excluded) {
            proof {
                assert(dir.deep_view()[j as int] == dir@[j as int]@);
                assert(!kept_dir(dir.deep_view(), excluded.deep_view()));
            }
            return false;
        }
        j += 1;
    }
    true
}

/// What filtering does to a one-element sequence.
proof fn lemma_filter_singleton<A>(x: A, pred: spec_fn(A) -> bool)
    ensures
        seq![x].filter(pred) == if pred(x) {
            seq![x]
        } else {
            Seq::<A>::empty()
        },
{
    reveal_with_fuel(Seq::filter, 2);
    assert(seq![x].drop_last() =~= Seq::<A>::empty());
    assert(seq![x].last() == x);
    if pred(x) {
        assert(seq![x].filter(pred) =~= seq![x]);
    } else {
        assert(seq![x].filter(pred) =~= Seq::<A>::empty());
    }
}

/// Out of the enumerated directories of the subtree, keep every one whose
/// path segments avoid the excluded basenames, in enumeration order. An
/// excluded directory is pruned together with its whole subtree.
pub fn list_subdirs(dirs: &Vec<Vec<String>>, excluded: &Vec<String>) -> (r: Vec<Vec<String>>)
    ensures
        r.deep_view() == watched_subset(dirs.deep_view(), excluded.deep_view()),
{
    broadcast use group_seq_properties;

    let ghost pred = |d: Seq<Seq<char>>| kept_dir(d, excluded.deep_view());
    let mut r: Vec<Vec<String>> = Vec::new();
    let mut i: usize = 0;
    while i < dirs.len()
        invariant
            i <= dirs.len(),
            r.deep_view() == dirs.deep_view().take(i as int).filter(pred),
            pred == (|d: Seq<Seq<char>>| kept_dir(d, excluded.deep_view())),
        decreases dirs.len() - i,
    {
        let ghost prefix = dirs.deep_view().take(i as int);
        let ghost element = dirs.deep_view()[i as int];
        if dir_is_kept(&dirs[i], excluded) {
            let kept = dirs[i].clone();
            proof {
                assert(kept.deep_view() =~= element);
            }
            r.push(kept);
        }
        proof {
            assert(dirs.deep_view().take(i + 1 as int) =~= prefix + seq![element]);
            Seq::filter_distributes_over_add(prefix, seq![element], pred);
            lemma_filter_singleton(element, pred);
            if pred(element) {
                assert(r.deep_view() =~= prefix.filter(pred) + seq![element]);
            } else {
                assert(r.deep_view() =~= prefix.filter(pred));
            }
        }
        i += 1;
    }
    proof {
        assert(dirs.deep_view().take(dirs.len() as int) =~= dirs.deep_view());
    }
    r
}

/// Exclusion prunes whole subtrees: a directory whose path carries an
/// excluded basename anywhere — the excluded directory itself as much as
/// every descendant of it — is never part of the watch set.
pub proof fn lemma_exclusion_prunes_subtree(
    dirs: Seq<Seq<Seq<char>>>,
    excluded: Seq<Seq<char>>,
    d: Seq<Seq<char>>,
    j: int,
)
    requires
        0 <= j < d.len(),
        excluded.contains(d[j]),
    ensures
        !watched_subset(dirs, excluded).contains(d),
{
    let pred = |x: Seq<Seq<char>>| kept_dir(x, excluded);
    let w = watched_subset(dirs, excluded);
    if w.contains(d) {
        let i = choose|i: int| 0 <= i < w.len() && w[i] == d;
        dirs.lemma_filter_pred(pred, i);
        assert(kept_dir(d, excluded));
    }
}

} // verus!
