//! A polling monitor for removable storage volumes.
//!
//! The monitor repeatedly enumerates the storage roots that are present,
//! compares each snapshot against the previous one, reports what appeared
//! and what vanished, and stops cooperatively when a one-shot cancellation
//! signal fires.  This crate holds the monitor's verified core: volume
//! identifiers and sets, the snapshot diff, the enumeration model, the
//! cancellation flag, and the watcher's state machine.  The platform probes,
//! the sleeps and the console belong to the unverified driver around it.

pub mod differ;
pub mod enumerator;
pub mod signal;
pub mod volume;
pub mod watcher;
