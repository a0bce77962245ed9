//! Visibility signal derived from the keyboard by the hotkey observer.
//!
//! The observer samples the modifier keys on its own cadence and derives the
//! overlay's visibility. Writes into the shared cell that the render loop
//! reads are edge-triggered: `poll` reports a value to publish only when the
//! derived visibility differs from the one last published, which keeps
//! cross-thread traffic to actual changes. The host owns the shared cell and
//! the sleeping; every decision is made here.

use vstd::prelude::*;
use vstd::rwlock::RwLock;
use vstd::rwlock::RwLockPredicate;

use crate::keys::KeyCombo;
use crate::keys::KeySnapshot;

verus! {

/// Whether the overlay is shown. Written only by the hotkey observer, read
/// only by the render loop; initialized to `Hidden` at process start.
#[derive(Clone, Copy, Debug, PartialEq, Eq, Structural)]
pub enum VisibilityState {
    Hidden,
    Visible,
}

/// The visibility that a key sample dictates: visible exactly while the
/// activation combo is fully held.
pub open spec fn derived_visibility(combo: KeyCombo, snap: KeySnapshot) -> VisibilityState {
    if combo.satisfied_by(snap) {
        VisibilityState::Visible
    } else {
        VisibilityState::Hidden
    }
}

/// The hotkey observer: holds the activation combo and the visibility it
/// last published, so that writes can be edge-triggered.
pub struct HotkeyObserver {
    /// The activation combo; fixed for the observer's lifetime.
    pub combo: KeyCombo,
    /// The visibility value last published to the shared cell.
    pub published: VisibilityState,
}

/// The observer's state after it digests one key sample.
pub open spec fn observer_after_poll(obs: HotkeyObserver, snap: KeySnapshot) -> HotkeyObserver {
    HotkeyObserver { combo: obs.combo, published: derived_visibility(obs.combo, snap) }
}

/// What one poll publishes: the newly derived visibility when it differs
/// from the value last published, nothing otherwise.
pub open spec fn poll_write(obs: HotkeyObserver, snap: KeySnapshot) -> Option<VisibilityState> {
    if derived_visibility(obs.combo, snap) == obs.published {
        None
    } else {
        Some(derived_visibility(obs.combo, snap))
    }
}

impl HotkeyObserver {
    /// A fresh observer for `combo`. The overlay starts hidden, and the
    /// shared cell is expected to start at `Hidden` too.
    pub fn new(combo: KeyCombo) -> (r: HotkeyObserver)
        ensures
            r.combo == combo,
            r.published == VisibilityState::Hidden,
    {
        HotkeyObserver { combo, published: VisibilityState::Hidden }
    }

    /// The visibility the observer last published.
    pub fn current(&self) -> (r: VisibilityState)
        ensures
            r == self.published,
    {
        self.published
    }

    /// Digests one sample of the modifier keys. Returns `Some(v)` when the
    /// host must write `v` into the shared cell — exactly when the derived
    /// visibility differs from the one last published — and `None` when the
    /// cell is already up to date. Either way the observer's record of the
    /// published value reflects this sample afterwards.
    pub fn poll(&mut self, snap: &KeySnapshot) -> (write: Option<VisibilityState>)
        ensures
            *final(self) == observer_after_poll(*old(self), *snap),
            write == poll_write(*old(self), *snap),
    {
        let derived = if self.combo.is_satisfied_by(snap) {
            VisibilityState::Visible
        } else {
            VisibilityState::Hidden
        };
        if derived == self.published {
            None
        } else {
            self.published = derived;
            Some(derived)
        }
    }
}

/// Any visibility value may sit in the shared cell.
pub struct AnyVisibility;

impl RwLockPredicate<VisibilityState> for AnyVisibility {
    open spec fn inv(self, v: VisibilityState) -> bool {
        true
    }
}

/// The one value shared between the observer and the render loop, guarded by
/// a lock whose critical sections are a single value copy, so neither side
/// ever waits on the other for more than that. The raw cell is never
/// exposed: the observer goes through `write`, the render loop through
/// `read`. A read never tears: it returns a value some write (or the
/// initialization) put there whole.
pub struct VisibilityCell {
    lock: RwLock<VisibilityState, AnyVisibility>,
}

impl VisibilityCell {
    /// A fresh cell, holding `Hidden` as at process start.
    pub fn new() -> (r: VisibilityCell) {
        VisibilityCell { lock: RwLock::new(VisibilityState::Hidden, Ghost(AnyVisibility)) }
    }

    /// Reads the current visibility without blocking beyond the writer's
    /// single-copy critical section. If no write is pending, this is the
    /// last value written.
    pub fn read(&self) -> (r: VisibilityState) {
        let handle = self.lock.acquire_read();
        let value = *handle.borrow();
        handle.release_read();
        value
    }

    /// Publishes a new visibility; the critical section is the one copy.
    pub fn write(&self, value: VisibilityState) {
        let (_previous, handle) = self.lock.acquire_write();
        handle.release_write(value);
    }
}

/// Polling is idempotent under an unchanged key state: a second poll on the
/// same sample leaves the observer exactly where the first left it and
/// publishes nothing.
pub proof fn lemma_poll_idempotent(obs: HotkeyObserver, snap: KeySnapshot)
    ensures
        observer_after_poll(observer_after_poll(obs, snap), snap) == observer_after_poll(
            obs,
            snap,
        ),
        poll_write(observer_after_poll(obs, snap), snap) == None::<VisibilityState>,
{
}

/// One poll suffices for freshness: whatever the observer published before,
/// after a single poll its published visibility is the one the sample
/// dictates. The host polls once per interval, so the value a reader sees is
/// at most one polling interval old.
pub proof fn lemma_poll_fresh(obs: HotkeyObserver, snap: KeySnapshot)
    ensures
        observer_after_poll(obs, snap).published == derived_visibility(obs.combo, snap),
{
}

} // verus!
