//! Enumerating the volumes that are present.
//!
//! The address space of candidate roots is fixed and bounded: the 26 drive
//! letters.  One round of enumeration probes each candidate with the
//! platform's existence test and keeps exactly those whose test came back
//! true.  The probe itself is the driver's business; this module fixes the
//! candidate alphabet and builds the snapshot a round of probe outcomes
//! describes, so enumeration can never fail and never includes a candidate
//! whose test was false.

use vstd::prelude::*;

verus! {

use crate::volume::VolumeId;
use crate::volume::VolumeSet;

/// How many candidate roots the fixed address space holds: the letters
/// `'A'` through `'Z'`.
pub const CANDIDATE_COUNT: usize = 26;

/// The snapshot one round of probing describes: every well-formed candidate
/// whose existence test came back true, and nothing else.
pub open spec fn snapshot_spec(present: Seq<bool>) -> Set<VolumeId> {
    Set::new(|id: VolumeId| id.wf() && present[id.index()])
}

/// The fixed candidate alphabet, in order: `'A'` first, `'Z'` last.
pub fn candidates() -> (v: Vec<VolumeId>)
    ensures
        v@.len() == CANDIDATE_COUNT,
        forall|k: int| 0 <= k < v@.len() ==> (#[trigger] v@[k]).wf() && v@[k].index() == k,
{
    let mut v: Vec<VolumeId> = Vec::new();
    let mut i: usize = 0;
    while i < CANDIDATE_COUNT
        invariant
            i <= CANDIDATE_COUNT,
            v@.len() == i,
            forall|k: int| 0 <= k < i ==> (#[trigger] v@[k]).wf() && v@[k].index() == k,
        decreases CANDIDATE_COUNT - i,
    {
        v.push(VolumeId::from_index(i as u8));
        i = i + 1;
    }
    v
}

/// Builds the snapshot for one round of probing.  `present[k]` is the
/// outcome of the platform existence test for the candidate at index `k`;
/// a candidate enters the snapshot exactly when its test came back true,
/// so an absent or inaccessible root is simply left out, never an error.
pub fn enumerate_from(present: &Vec<bool>) -> (s: VolumeSet)
    requires
        present@.len() == CANDIDATE_COUNT,
    ensures
        s.wf(),
        s@ == snapshot_spec(present@),
{
    let mut s = VolumeSet::new();
    let mut i: usize = 0;
    while i < CANDIDATE_COUNT
        invariant
            present@.len() == CANDIDATE_COUNT,
            i <= CANDIDATE_COUNT,
            s.wf(),
            forall|id: VolumeId|
                #[trigger] s@.contains(id) <==> (id.wf() && id.index() < i && present@[id.index()]),
        decreases CANDIDATE_COUNT - i,
    {
        if present[i] {
            let id = VolumeId::from_index(i as u8);
            s.insert(id);
            proof {
                assert forall|x: VolumeId| x.wf() && x.index() == i as int implies x == id by {
                    assert(x.letter == id.letter);
                    assert(x == (VolumeId { letter: x.letter }));
                }
            }
        }
        i = i + 1;
    }
    proof {
        assert(s@ =~= snapshot_spec(present@));
    }
    s
}

/// Law: enumeration admits no false positive — the snapshot never includes
/// a candidate whose existence test was false at probe time.
pub proof fn lemma_no_false_positives(present: Seq<bool>, id: VolumeId)
    requires
        snapshot_spec(present).contains(id),
    ensures
        id.wf(),
        present[id.index()],
{
}

/// Law: enumeration is deterministic — two rounds of probing with no
/// underlying change, that is with equal probe outcomes, describe the same
/// snapshot.
pub proof fn lemma_enumeration_deterministic(first: Seq<bool>, second: Seq<bool>)
    requires
        first == second,
    ensures
        snapshot_spec(first) == snapshot_spec(second),
{
}

} // verus!
