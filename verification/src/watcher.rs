//! The watcher loop's state machine.
//!
//! The loop drives enumerate, diff, react and sleep cycles until told to
//! stop.  Its decisions live here, verified: how one cycle advances the
//! `known` snapshot and what it finds, which records the reaction step
//! emits, and how the tail-of-cycle cancellation check moves the loop
//! through its phases.  The driver around the library performs the probes,
//! the listings, the sleep and the final check in that order and feeds the
//! outcomes in as plain values.

use vstd::prelude::*;

verus! {

use crate::differ::added_spec;
use crate::differ::diff;
use crate::differ::removed_spec;
use crate::differ::VolumeDiff;
use crate::volume::VolumeId;
use crate::volume::VolumeSet;

/// Where the loop stands in its life.  `Stopped` is terminal.
#[derive(Clone, Copy, PartialEq, Eq, Structural, Debug)]
pub enum WatchPhase {
    Running,
    Stopping,
    Stopped,
}

/// One informational record of a cycle's reaction step.
#[derive(Clone, Copy, PartialEq, Eq, Structural, Debug)]
pub enum WatchEvent {
    /// A volume appeared since the previous snapshot.  Its root is to be
    /// listed, and either the entries or the listing failure reported;
    /// both outcomes are informational and neither alters the cycle.
    Added(VolumeId),
    /// A volume vanished since the previous snapshot.  Informational only;
    /// no listing is attempted, the root is assumed inaccessible.
    Removed(VolumeId),
}

/// The phase the tail-of-cycle check leaves the loop in.
pub open spec fn phase_after_check(fired: bool) -> WatchPhase {
    if fired {
        WatchPhase::Stopping
    } else {
        WatchPhase::Running
    }
}

/// The loop's private state: exactly one snapshot of history — `known`,
/// the snapshot from the end of the previous cycle — and the phase.
pub struct WatchState {
    pub known: VolumeSet,
    pub phase: WatchPhase,
}

impl WatchState {
    pub open spec fn wf(self) -> bool {
        self.known.wf()
    }

    /// Start of the loop: the first enumeration becomes the first `known`,
    /// and the loop enters `Running`.
    pub fn start(initial: VolumeSet) -> (st: WatchState)
        requires
            initial.wf(),
        ensures
            st.wf(),
            st.phase == WatchPhase::Running,
            st.known@ == initial@,
    {
        WatchState { known: initial, phase: WatchPhase::Running }
    }

    /// One cycle's comparison step: diffs the fresh snapshot against
    /// `known` and advances `known` to it, so every diff is computed
    /// against exactly one step of history.  The phase is untouched; the
    /// cancellation check comes only at the cycle's tail.
    pub fn cycle(&mut self, current: VolumeSet) -> (d: VolumeDiff)
        requires
            old(self).wf(),
            old(self).phase == WatchPhase::Running,
            current.wf(),
        ensures
            final(self).wf(),
            final(self).phase == WatchPhase::Running,
            final(self).known@ == current@,
            d.added.wf(),
            d.removed.wf(),
            d.added@ == added_spec(old(self).known@, current@),
            d.removed@ == removed_spec(old(self).known@, current@),
            d.added@.disjoint(d.removed@),
    {
        let d = diff(&self.known, &current);
        self.known = current;
        d
    }

    /// The tail-of-cycle check: observes the cancellation signal after the
    /// sleep, once per cycle.  If it fired, the loop leaves `Running` for
    /// `Stopping`; otherwise it remains `Running` and repeats.
    pub fn check_cancellation(&mut self, fired: bool)
        requires
            old(self).phase == WatchPhase::Running,
        ensures
            final(self).known == old(self).known,
            final(self).phase == phase_after_check(fired),
    {
        if fired {
            self.phase = WatchPhase::Stopping;
        }
    }

    /// Exit of the loop: `Stopping` to `Stopped`, the terminal phase.
    pub fn finish(&mut self)
        requires
            old(self).phase == WatchPhase::Stopping,
        ensures
            final(self).known == old(self).known,
            final(self).phase == WatchPhase::Stopped,
    {
        self.phase = WatchPhase::Stopped;
    }
}

/// The records one cycle's reaction step emits: one `Added` record per
/// added member first, then one `Removed` record per removed member, and
/// nothing else.
pub fn cycle_events(d: &VolumeDiff) -> (evs: Vec<WatchEvent>)
    requires
        d.added.wf(),
        d.removed.wf(),
    ensures
        evs@.len() == d.added.member_seq().len() + d.removed.member_seq().len(),
        forall|k: int|
            0 <= k < d.added.member_seq().len() ==> evs@[k] == WatchEvent::Added(
                d.added.member_seq()[k],
            ),
        forall|k: int|
            d.added.member_seq().len() <= k < evs@.len() ==> evs@[k] == WatchEvent::Removed(
                d.removed.member_seq()[k - d.added.member_seq().len()],
            ),
        forall|k: int|
            0 <= k < evs@.len() ==> ((#[trigger] evs@[k]) matches WatchEvent::Added(id)
                ==> d.added@.contains(id)),
        forall|k: int|
            0 <= k < evs@.len() ==> ((#[trigger] evs@[k]) matches WatchEvent::Removed(id)
                ==> d.removed@.contains(id)),
{
    let mut evs: Vec<WatchEvent> = Vec::new();
    let am = d.added.members();
    let mut k: usize = 0;
    while k < am.len()
        invariant
            am@ == d.added.member_seq(),
            k <= am@.len(),
            evs@.len() == k,
            forall|j: int| 0 <= j < k ==> evs@[j] == WatchEvent::Added(am@[j]),
        decreases am@.len() - k,
    {
        evs.push(WatchEvent::Added(am[k]));
        k = k + 1;
    }
    let rm = d.removed.members();
    let mut k2: usize = 0;
    while k2 < rm.len()
        invariant
            am@ == d.added.member_seq(),
            rm@ == d.removed.member_seq(),
            k2 <= rm@.len(),
            evs@.len() == am@.len() + k2,
            forall|j: int| 0 <= j < am@.len() ==> evs@[j] == WatchEvent::Added(am@[j]),
            forall|j: int|
                am@.len() <= j < evs@.len() ==> evs@[j] == WatchEvent::Removed(
                    rm@[j - am@.len()],
                ),
        decreases rm@.len() - k2,
    {
        evs.push(WatchEvent::Removed(rm[k2]));
        k2 = k2 + 1;
    }
    proof {
        d.added.lemma_member_seq();
        d.removed.lemma_member_seq();
        assert forall|k3: int|
            0 <= k3 < evs@.len() implies ((#[trigger] evs@[k3]) matches WatchEvent::Added(id)
            ==> d.added@.contains(id)) by {
            if k3 < am@.len() {
                assert(am@.contains(am@[k3]));
            }
        }
        assert forall|k3: int|
            0 <= k3 < evs@.len() implies ((#[trigger] evs@[k3]) matches WatchEvent::Removed(id)
            ==> d.removed@.contains(id)) by {
            if k3 >= am@.len() {
                assert(rm@.contains(rm@[k3 - am@.len()]));
            }
        }
    }
    evs
}

/// One run of the loop, as its phases record it.  `fired[k]` is what
/// iteration `k`'s tail check read from the cancellation signal;
/// `phases[k]` is the phase entering iteration `k`, and `phases` ends with
/// the phase after the last check.  A run is one the loop's contracts
/// allow: it starts `Running`, every iteration begins `Running`, and each
/// tail check moves the phase as `phase_after_check` says.
pub open spec fn run_ok(phases: Seq<WatchPhase>, fired: Seq<bool>) -> bool {
    &&& phases.len() == fired.len() + 1
    &&& forall|k: int| 0 <= k < fired.len() ==> phases[k] == WatchPhase::Running
    &&& forall|k: int| 0 <= k < fired.len() ==> phases[k + 1] == phase_after_check(fired[k])
}

/// Law: bounded shutdown latency.  In any run of the loop, the iteration
/// whose tail check reads the signal as fired is the run's last: once the
/// signal fires, at most the one cycle then in flight completes before the
/// loop leaves `Running` for `Stopping` — and from there only `finish`,
/// which no longer cycles, leads to `Stopped`.
pub proof fn lemma_bounded_shutdown(phases: Seq<WatchPhase>, fired: Seq<bool>, j: int)
    requires
        run_ok(phases, fired),
        0 <= j < fired.len(),
        fired[j],
    ensures
        fired.len() == j + 1,
        phases[j + 1] == WatchPhase::Stopping,
{
    if j + 1 < fired.len() {
        assert(phases[j + 1] == WatchPhase::Running);
        assert(phases[j + 1] == WatchPhase::Stopping);
        assert(false);
    }
}

} // verus!
