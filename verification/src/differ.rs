//! Comparing two snapshots: which volumes appeared, which vanished.

use vstd::prelude::*;

verus! {

use crate::volume::VolumeId;
use crate::volume::VolumeSet;

/// What one comparison of two snapshots found: the volumes that appeared
/// and the volumes that vanished since the previous snapshot.
pub struct VolumeDiff {
    pub added: VolumeSet,
    pub removed: VolumeSet,
}

/// The members of `curr` absent from `prev`.
pub open spec fn added_spec(prev: Set<VolumeId>, curr: Set<VolumeId>) -> Set<VolumeId> {
    curr.difference(prev)
}

/// The members of `prev` absent from `curr`.
pub open spec fn removed_spec(prev: Set<VolumeId>, curr: Set<VolumeId>) -> Set<VolumeId> {
    prev.difference(curr)
}

/// The members of `a` that `b` lacks.
fn members_absent_from(a: &VolumeSet, b: &VolumeSet) -> (r: VolumeSet)
    requires
        a.wf(),
    ensures
        r.wf(),
        r@ == a@.difference(b@),
{
    let mut r = VolumeSet::new();
    let av = a.members();
    let mut k: usize = 0;
    while k < av.len()
        invariant
            k <= av@.len(),
            av@ == a.member_seq(),
            av@.to_set() == a@,
            forall|j: int| 0 <= j < av@.len() ==> (#[trigger] av@[j]).wf(),
            r.wf(),
            forall|id: VolumeId| r@.contains(id) ==> av@.contains(id) && !b@.contains(id),
            forall|j: int| 0 <= j < k ==> b@.contains(#[trigger] av@[j]) || r@.contains(av@[j]),
        decreases av@.len() - k,
    {
        let id = av[k];
        if !b.contains(id) {
            r.insert(id);
            proof {
                assert(av@.contains(id)) by {
                    assert(av@[k as int] == id);
                }
            }
        }
        k = k + 1;
    }
    proof {
        assert forall|id: VolumeId| a@.difference(b@).contains(id) implies r@.contains(id) by {
            assert(av@.contains(id));
            let j = choose|j: int| 0 <= j < av@.len() && av@[j] == id;
            assert(b@.contains(av@[j]) || r@.contains(av@[j]));
        }
        assert(r@ =~= a@.difference(b@));
    }
    r
}

/// Compares two snapshots.  `added` holds the members of `current` absent
/// from `previous`; `removed` holds the members of `previous` absent from
/// `current`.  Pure: no error, no side effect, and the two results never
/// share a member.
pub fn diff(previous: &VolumeSet, current: &VolumeSet) -> (d: VolumeDiff)
    requires
        previous.wf(),
        current.wf(),
    ensures
        d.added.wf(),
        d.removed.wf(),
        d.added@ == added_spec(previous@, current@),
        d.removed@ == removed_spec(previous@, current@),
        d.added@.disjoint(d.removed@),
{
    let added = members_absent_from(current, previous);
    let removed = members_absent_from(previous, current);
    proof {
        lemma_diff_disjoint(previous@, current@);
    }
    VolumeDiff { added, removed }
}

/// Law: the added set and the removed set of one diff never share a member.
pub proof fn lemma_diff_disjoint(prev: Set<VolumeId>, curr: Set<VolumeId>)
    ensures
        added_spec(prev, curr).disjoint(removed_spec(prev, curr)),
{
    assert forall|id: VolumeId|
        added_spec(prev, curr).contains(id) implies !removed_spec(prev, curr).contains(id) by {}
}

/// Law: diffing a snapshot against itself reports no change at all.
pub proof fn lemma_diff_self(s: Set<VolumeId>)
    ensures
        added_spec(s, s) == Set::<VolumeId>::empty(),
        removed_spec(s, s) == Set::<VolumeId>::empty(),
{
    assert(added_spec(s, s) =~= Set::<VolumeId>::empty());
    assert(removed_spec(s, s) =~= Set::<VolumeId>::empty());
}

} // verus!
