//! Volume identifiers and finite sets of them.

use vstd::prelude::*;

verus! {

/// One storage root, identified by its drive letter.
///
/// Identity is the letter alone; a well-formed identifier carries an ASCII
/// capital, `'A'` through `'Z'`, one of the fixed candidate alphabet the
/// enumerator scans.
#[derive(Clone, Copy, PartialEq, Eq, Structural, Hash, Debug)]
pub struct VolumeId {
    pub letter: u8,
}

impl VolumeId {
    /// A well-formed identifier names one of the 26 candidate roots.
    pub open spec fn wf(self) -> bool {
        65 <= self.letter && self.letter <= 90
    }

    /// Position of this identifier in the candidate alphabet:
    /// 0 for `'A'`, 25 for `'Z'`.
    pub open spec fn index(self) -> int {
        self.letter - 65
    }

    /// Accepts exactly the ASCII capitals `'A'` through `'Z'`.
    pub fn from_letter(letter: u8) -> (r: Option<VolumeId>)
        ensures
            (65 <= letter && letter <= 90) ==> r == Some((VolumeId { letter })),
            !(65 <= letter && letter <= 90) ==> r is None,
    {
        if 65 <= letter && letter <= 90 {
            Some(VolumeId { letter })
        } else {
            None
        }
    }

    /// The identifier at a given position of the candidate alphabet.
    pub fn from_index(i: u8) -> (r: VolumeId)
        requires
            i < 26,
        ensures
            r.wf(),
            r.index() == i as int,
    {
        VolumeId { letter: 65 + i }
    }
}

/// A finite set of volume identifiers: unique members, no meaningful order.
#[derive(Clone, Debug)]
pub struct VolumeSet {
    ids: Vec<VolumeId>,
}

impl View for VolumeSet {
    type V = Set<VolumeId>;

    closed spec fn view(&self) -> Set<VolumeId> {
        self.ids@.to_set()
    }
}

impl VolumeSet {
    /// The members in their storage order.  The order carries no meaning;
    /// it exists so that contracts over emitted records can speak of one
    /// member at a time.
    pub closed spec fn member_seq(self) -> Seq<VolumeId> {
        self.ids@
    }

    /// Well-formed: members are pairwise distinct and each names a
    /// candidate root.
    pub closed spec fn wf(self) -> bool {
        &&& self.ids@.no_duplicates()
        &&& forall|k: int| 0 <= k < self.ids@.len() ==> (#[trigger] self.ids@[k]).wf()
    }

    /// In a well-formed set the member order lists each member of the view
    /// exactly once.
    pub proof fn lemma_member_seq(self)
        requires
            self.wf(),
        ensures
            self.member_seq().no_duplicates(),
            self.member_seq().to_set() == self@,
            forall|k: int| 0 <= k < self.member_seq().len() ==> (#[trigger] self.member_seq()[k]).wf(),
    {
    }

    /// The empty set.
    pub fn new() -> (s: VolumeSet)
        ensures
            s.wf(),
            s@ == Set::<VolumeId>::empty(),
    {
        let s = VolumeSet { ids: Vec::new() };
        proof {
            assert(s.ids@.to_set() =~= Set::<VolumeId>::empty());
        }
        s
    }

    /// Membership test.
    pub fn contains(&self, id: VolumeId) -> (r: bool)
        ensures
            r == self@.contains(id),
    {
        let mut k: usize = 0;
        while k < self.ids.len()
            invariant
                k <= self.ids@.len(),
                forall|j: int| 0 <= j < k ==> self.ids@[j] != id,
            decreases self.ids@.len() - k,
        {
            if self.ids[k] == id {
                proof {
                    assert(self.ids@.contains(id)) by {
                        assert(self.ids@[k as int] == id);
                    }
                }
                return true;
            }
            k = k + 1;
        }
        false
    }

    /// Adds a member; adding one already present leaves the set as it was.
    pub fn insert(&mut self, id: VolumeId)
        requires
            old(self).wf(),
            id.wf(),
        ensures
            final(self).wf(),
            final(self)@ == old(self)@.insert(id),
    {
        if !self.contains(id) {
            proof {
                old(self).ids@.lemma_push_to_set_commute(id);
            }
            self.ids.push(id);
        } else {
            proof {
                assert(old(self)@.insert(id) =~= old(self)@);
            }
        }
    }

    /// How many members the set holds.
    pub fn count(&self) -> (n: usize)
        requires
            self.wf(),
        ensures
            n == self@.len(),
    {
        proof {
            self.ids@.unique_seq_to_set();
        }
        self.ids.len()
    }

    /// Borrows the members for iteration; their order carries no meaning.
    pub fn members(&self) -> (v: &Vec<VolumeId>)
        requires
            self.wf(),
        ensures
            v@ == self.member_seq(),
            v@.to_set() == self@,
            v@.no_duplicates(),
            forall|k: int| 0 <= k < v@.len() ==> (#[trigger] v@[k]).wf(),
    {
        &self.ids
    }
}

} // verus!
