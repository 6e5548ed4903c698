//! A mathematical model of the commit ancestry graph.
//!
//! Commits are content-addressed and immutable, so a commit's parents were
//! all created before it: the model names commits by creation order and
//! demands that every parent's number is smaller. On that graph the module
//! states and proves the laws the squash relies on: which commits are
//! unique to a head relative to a target, when that set is empty, and that
//! a rewritten branch carries exactly one unique commit, so that a second
//! run right after a squash collapses nothing.

use vstd::prelude::*;

verus! {

/// The ancestry graph: each commit's ordered parent list, keyed by the
/// commit's creation number.
pub struct CommitGraph {
    pub parents: Map<nat, Seq<nat>>,
}

/// Every parent exists and was created before its child.
pub open spec fn well_formed(g: CommitGraph) -> bool {
    forall|c: nat|
        #[trigger] g.parents.dom().contains(c) ==> forall|i: int|
            0 <= i < g.parents[c].len() ==> #[trigger] g.parents[c][i] < c
                && g.parents.dom().contains(g.parents[c][i])
}

/// `to` is an ancestor of `from`, or `from` itself.
pub open spec fn reachable(g: CommitGraph, from: nat, to: nat) -> bool
    decreases from,
        when well_formed(g)
{
    g.parents.dom().contains(from) && (from == to || exists|i: int|
        0 <= i < g.parents[from].len() && reachable(g, #[trigger] g.parents[from][i], to))
}

/// The commits unique to `head` relative to `target`: reachable from the
/// head but not from the target's tip. This is the set a squash collapses.
pub open spec fn unique_to(g: CommitGraph, head: nat, target: nat) -> Set<nat> {
    Set::new(|c: nat| reachable(g, head, c) && !reachable(g, target, c))
}

/// Whatever is reachable is in the graph.
pub proof fn lemma_reachable_in_graph(g: CommitGraph, from: nat, to: nat)
    requires
        well_formed(g),
        reachable(g, from, to),
    ensures
        g.parents.dom().contains(to),
    decreases from,
{
    if from != to {
        let i = choose|i: int|
            0 <= i < g.parents[from].len() && reachable(g, #[trigger] g.parents[from][i], to);
        lemma_reachable_in_graph(g, g.parents[from][i], to);
    }
}

/// Reachability is transitive.
pub proof fn lemma_reachable_trans(g: CommitGraph, a: nat, b: nat, c: nat)
    requires
        well_formed(g),
        reachable(g, a, b),
        reachable(g, b, c),
    ensures
        reachable(g, a, c),
    decreases a,
{
    if a != b {
        let i = choose|i: int|
            0 <= i < g.parents[a].len() && reachable(g, #[trigger] g.parents[a][i], b);
        lemma_reachable_trans(g, g.parents[a][i], b, c);
        assert(reachable(g, g.parents[a][i], c));
    }
}

/// Adding a fresh commit keeps the graph well formed, provided its parents
/// exist and are older.
pub proof fn lemma_insert_well_formed(g: CommitGraph, g2: CommitGraph, fresh: nat, ps: Seq<nat>)
    requires
        well_formed(g),
        !g.parents.dom().contains(fresh),
        forall|i: int| 0 <= i < ps.len() ==> #[trigger] ps[i] < fresh
            && g.parents.dom().contains(ps[i]),
        g2.parents == g.parents.insert(fresh, ps),
    ensures
        well_formed(g2),
{
    assert forall|c: nat| #[trigger] g2.parents.dom().contains(c) implies forall|i: int|
        0 <= i < g2.parents[c].len() ==> #[trigger] g2.parents[c][i] < c
            && g2.parents.dom().contains(g2.parents[c][i]) by {
        if c == fresh {
            assert(g2.parents[c] == ps);
        } else {
            assert(g2.parents[c] == g.parents[c]);
        }
    }
}

/// Adding a fresh commit changes nothing about reachability among the
/// commits that were already there.
pub proof fn lemma_reachable_frame(
    g: CommitGraph,
    g2: CommitGraph,
    fresh: nat,
    ps: Seq<nat>,
    from: nat,
    to: nat,
)
    requires
        well_formed(g),
        well_formed(g2),
        !g.parents.dom().contains(fresh),
        g2.parents == g.parents.insert(fresh, ps),
        g.parents.dom().contains(from),
    ensures
        reachable(g2, from, to) == reachable(g, from, to),
    decreases from,
{
    assert(g2.parents[from] == g.parents[from]);
    assert forall|i: int| 0 <= i < g.parents[from].len() implies reachable(
        g2,
        #[trigger] g.parents[from][i],
        to,
    ) == reachable(g, g.parents[from][i], to) by {
        lemma_reachable_frame(g, g2, fresh, ps, g.parents[from][i], to);
    }
}

/// A head has no unique commits exactly when the target can already reach
/// it: then, and only then, a run over that head is the empty no-op.
pub proof fn lemma_no_unique_commits_iff_merged(g: CommitGraph, head: nat, target: nat)
    requires
        well_formed(g),
        g.parents.dom().contains(head),
    ensures
        (unique_to(g, head, target) =~= Set::<nat>::empty()) <==> reachable(g, target, head),
{
    if reachable(g, target, head) {
        assert forall|c: nat| !(#[trigger] unique_to(g, head, target).contains(c)) by {
            if reachable(g, head, c) {
                lemma_reachable_trans(g, target, head, c);
            }
        }
    } else {
        assert(reachable(g, head, head));
        assert(unique_to(g, head, target).contains(head));
    }
}

/// After a squash the branch head is a single fresh commit whose sole
/// parent is the merge base, itself reachable from the target. The commits
/// unique to that head are then exactly the fresh commit: a run right after
/// a successful squash finds one unique commit and collapses nothing.
pub proof fn lemma_squash_is_idempotent(
    g: CommitGraph,
    g2: CommitGraph,
    target: nat,
    base: nat,
    fresh: nat,
)
    requires
        well_formed(g),
        g.parents.dom().contains(target),
        reachable(g, target, base),
        !g.parents.dom().contains(fresh),
        forall|c: nat| #[trigger] g.parents.dom().contains(c) ==> c < fresh,
        g2.parents == g.parents.insert(fresh, seq![base]),
    ensures
        well_formed(g2),
        unique_to(g2, fresh, target) =~= set![fresh],
        unique_to(g2, fresh, target).finite(),
        unique_to(g2, fresh, target).len() == 1,
{
    lemma_reachable_in_graph(g, target, base);
    lemma_insert_well_formed(g, g2, fresh, seq![base]);

    // The fresh commit itself is unique: the target reaches only old commits.
    lemma_reachable_frame(g, g2, fresh, seq![base], target, fresh);
    if reachable(g, target, fresh) {
        lemma_reachable_in_graph(g, target, fresh);
    }
    assert(reachable(g2, fresh, fresh));
    assert(unique_to(g2, fresh, target).contains(fresh));

    // No other commit is: whatever else the fresh head reaches goes through
    // the merge base, which the target reaches too.
    assert forall|c: nat| c != fresh && #[trigger] reachable(g2, fresh, c) implies reachable(
        g2,
        target,
        c,
    ) by {
        let i = choose|i: int|
            0 <= i < g2.parents[fresh].len() && reachable(g2, #[trigger] g2.parents[fresh][i], c);
        assert(g2.parents[fresh] == seq![base]);
        assert(g2.parents[fresh][i] == base);
        lemma_reachable_frame(g, g2, fresh, seq![base], base, c);
        lemma_reachable_trans(g, target, base, c);
        lemma_reachable_frame(g, g2, fresh, seq![base], target, c);
    }

    assert(unique_to(g2, fresh, target) =~= set![fresh]);
    vstd::set::axiom_set_insert_len(Set::<nat>::empty(), fresh);
    vstd::set::axiom_set_insert_finite(Set::<nat>::empty(), fresh);
}

} // verus!
