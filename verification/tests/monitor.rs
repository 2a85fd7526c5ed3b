use volume_watch::differ::diff;
use volume_watch::enumerator::candidates;
use volume_watch::enumerator::enumerate_from;
use volume_watch::enumerator::CANDIDATE_COUNT;
use volume_watch::signal::CancellationSignal;
use volume_watch::volume::VolumeId;
use volume_watch::volume::VolumeSet;
use volume_watch::watcher::cycle_events;
use volume_watch::watcher::WatchEvent;
use volume_watch::watcher::WatchPhase;
use volume_watch::watcher::WatchState;

fn id(letter: u8) -> VolumeId {
    VolumeId::from_letter(letter).unwrap()
}

fn vset(letters: &[u8]) -> VolumeSet {
    let mut s = VolumeSet::new();
    for &l in letters {
        s.insert(id(l));
    }
    s
}

fn probe(present_letters: &[u8]) -> Vec<bool> {
    let mut flags = Vec::new();
    for i in 0..26u8 {
        flags.push(present_letters.contains(&(b'A' + i)));
    }
    flags
}

#[test]
fn from_letter_accepts_capitals() {
    assert_eq!(id(b'A').letter, b'A');
    assert_eq!(id(b'Z').letter, b'Z');
}

#[test]
fn from_letter_rejects_other_bytes() {
    assert!(VolumeId::from_letter(b'a').is_none());
    assert!(VolumeId::from_letter(b'@').is_none());
    assert!(VolumeId::from_letter(b'[').is_none());
    assert!(VolumeId::from_letter(0).is_none());
}

#[test]
fn insert_keeps_members_unique() {
    let mut s = VolumeSet::new();
    assert_eq!(s.count(), 0);
    s.insert(id(b'C'));
    s.insert(id(b'C'));
    assert_eq!(s.count(), 1);
    assert!(s.contains(id(b'C')));
    assert!(!s.contains(id(b'D')));
}

#[test]
fn diff_reports_new_volume() {
    let known = vset(b"C");
    let current = vset(b"CE");
    let d = diff(&known, &current);
    assert_eq!(d.added.count(), 1);
    assert!(d.added.contains(id(b'E')));
    assert_eq!(d.removed.count(), 0);
}

#[test]
fn diff_reports_vanished_volume() {
    let known = vset(b"CE");
    let current = vset(b"C");
    let d = diff(&known, &current);
    assert_eq!(d.added.count(), 0);
    assert_eq!(d.removed.count(), 1);
    assert!(d.removed.contains(id(b'E')));
}

#[test]
fn diff_of_a_set_against_itself_is_empty() {
    let s = vset(b"ACZ");
    let d = diff(&s, &s);
    assert_eq!(d.added.count(), 0);
    assert_eq!(d.removed.count(), 0);
    let e = VolumeSet::new();
    let de = diff(&e, &e);
    assert_eq!(de.added.count(), 0);
    assert_eq!(de.removed.count(), 0);
}

#[test]
fn diff_added_and_removed_are_disjoint() {
    let prev = vset(b"ABC");
    let curr = vset(b"BCD");
    let d = diff(&prev, &curr);
    assert!(d.added.contains(id(b'D')));
    assert!(d.removed.contains(id(b'A')));
    for l in b'A'..=b'Z' {
        assert!(!(d.added.contains(id(l)) && d.removed.contains(id(l))));
    }
}

#[test]
fn candidates_are_the_alphabet_in_order() {
    let v = candidates();
    assert_eq!(v.len(), CANDIDATE_COUNT);
    assert_eq!(v[0].letter, b'A');
    assert_eq!(v[2].letter, b'C');
    assert_eq!(v[25].letter, b'Z');
}

#[test]
fn enumerate_keeps_only_present_candidates() {
    let s = enumerate_from(&probe(b"C"));
    assert_eq!(s.count(), 1);
    assert!(s.contains(id(b'C')));
    assert!(!s.contains(id(b'D')));
}

#[test]
fn enumerate_of_no_volumes_is_empty() {
    let s = enumerate_from(&probe(b""));
    assert_eq!(s.count(), 0);
}

#[test]
fn enumerate_of_every_candidate_holds_all_26() {
    let s = enumerate_from(&probe(b"ABCDEFGHIJKLMNOPQRSTUVWXYZ"));
    assert_eq!(s.count(), 26);
    assert!(s.contains(id(b'A')));
    assert!(s.contains(id(b'Z')));
}

#[test]
fn enumerate_is_deterministic() {
    let first = enumerate_from(&probe(b"CKZ"));
    let second = enumerate_from(&probe(b"CKZ"));
    assert_eq!(first.count(), second.count());
    for l in b'A'..=b'Z' {
        assert_eq!(first.contains(id(l)), second.contains(id(l)));
    }
}

#[test]
fn signal_starts_unfired() {
    let sig = CancellationSignal::new();
    assert!(!sig.observe());
}

#[test]
fn signal_stays_fired_and_refire_is_a_noop() {
    let mut sig = CancellationSignal::new();
    sig.fire();
    assert!(sig.observe());
    assert!(sig.observe());
    sig.fire();
    assert!(sig.observe());
}

#[test]
fn cycle_advances_known_by_exactly_one_step() {
    let mut st = WatchState::start(vset(b"C"));
    assert!(st.known.contains(id(b'C')));
    let d1 = st.cycle(vset(b"CD"));
    assert!(d1.added.contains(id(b'D')));
    assert!(st.known.contains(id(b'D')));
    let d2 = st.cycle(vset(b"CD"));
    assert_eq!(d2.added.count(), 0);
    assert_eq!(d2.removed.count(), 0);
}

#[test]
fn unfired_check_keeps_the_loop_running() {
    let mut st = WatchState::start(vset(b""));
    assert_eq!(st.phase, WatchPhase::Running);
    st.cycle(vset(b"A"));
    st.check_cancellation(false);
    assert_eq!(st.phase, WatchPhase::Running);
}

#[test]
fn fired_check_stops_the_loop_within_one_cycle() {
    let mut sig = CancellationSignal::new();
    let mut st = WatchState::start(vset(b"C"));
    sig.fire();
    st.cycle(vset(b"C"));
    st.check_cancellation(sig.observe());
    assert_eq!(st.phase, WatchPhase::Stopping);
    st.finish();
    assert_eq!(st.phase, WatchPhase::Stopped);
}

#[test]
fn reaction_records_added_before_removed_with_no_extras() {
    let d = diff(&vset(b"A"), &vset(b"B"));
    let evs = cycle_events(&d);
    assert_eq!(evs.len(), 2);
    assert_eq!(evs[0], WatchEvent::Added(id(b'B')));
    assert_eq!(evs[1], WatchEvent::Removed(id(b'A')));
}

#[test]
fn end_to_end_hot_plug_then_cancel() {
    let mut sig = CancellationSignal::new();
    let mut st = WatchState::start(enumerate_from(&probe(b"C")));
    assert!(st.known.contains(id(b'C')));

    // "D:" becomes present before the next cycle.
    let d1 = st.cycle(enumerate_from(&probe(b"CD")));
    let evs1 = cycle_events(&d1);
    assert_eq!(evs1, vec![WatchEvent::Added(id(b'D'))]);
    st.check_cancellation(sig.observe());
    assert_eq!(st.phase, WatchPhase::Running);

    // "D:" becomes absent again: one removal record, no listing attempt.
    let d2 = st.cycle(enumerate_from(&probe(b"C")));
    let evs2 = cycle_events(&d2);
    assert_eq!(evs2, vec![WatchEvent::Removed(id(b'D'))]);
    st.check_cancellation(sig.observe());
    assert_eq!(st.phase, WatchPhase::Running);

    // The cancellation trigger arrives: the loop reaches Stopped within one cycle.
    sig.fire();
    let d3 = st.cycle(enumerate_from(&probe(b"C")));
    assert!(cycle_events(&d3).is_empty());
    st.check_cancellation(sig.observe());
    assert_eq!(st.phase, WatchPhase::Stopping);
    st.finish();
    assert_eq!(st.phase, WatchPhase::Stopped);
}
