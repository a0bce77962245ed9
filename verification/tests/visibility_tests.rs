use hotkey_overlay::HotkeyObserver;
use hotkey_overlay::KeyCombo;
use hotkey_overlay::KeySnapshot;
use hotkey_overlay::VisibilityCell;
use hotkey_overlay::VisibilityState;

fn held(control: bool, shift: bool) -> KeySnapshot {
    let mut snap = KeySnapshot::all_released();
    snap.left_control = control;
    snap.left_shift = shift;
    snap
}

#[test]
fn combo_needs_every_required_modifier() {
    let combo = KeyCombo::control_shift();
    assert!(combo.is_satisfied_by(&held(true, true)));
    assert!(!combo.is_satisfied_by(&held(true, false)));
    assert!(!combo.is_satisfied_by(&held(false, true)));
    assert!(!combo.is_satisfied_by(&held(false, false)));
}

#[test]
fn either_physical_key_asserts_the_modifier() {
    let combo = KeyCombo::control_shift();
    let mut snap = KeySnapshot::all_released();
    snap.right_control = true;
    snap.right_shift = true;
    assert!(combo.is_satisfied_by(&snap));
}

#[test]
fn poll_shows_on_combo_and_hides_on_release() {
    // Holding control and shift makes the overlay visible; releasing either
    // key hides it on the next poll.
    let mut obs = HotkeyObserver::new(KeyCombo::control_shift());
    assert_eq!(obs.current(), VisibilityState::Hidden);

    let write = obs.poll(&held(true, true));
    assert_eq!(write, Some(VisibilityState::Visible));
    assert_eq!(obs.current(), VisibilityState::Visible);

    let write = obs.poll(&held(true, false));
    assert_eq!(write, Some(VisibilityState::Hidden));
    assert_eq!(obs.current(), VisibilityState::Hidden);
}

#[test]
fn releasing_the_other_key_also_hides() {
    let mut obs = HotkeyObserver::new(KeyCombo::control_shift());
    obs.poll(&held(true, true));
    let write = obs.poll(&held(false, true));
    assert_eq!(write, Some(VisibilityState::Hidden));
    assert_eq!(obs.current(), VisibilityState::Hidden);
}

#[test]
fn poll_is_idempotent_under_unchanged_keys() {
    // Sampling the same key state twice in succession leaves the observer
    // where the first poll put it, and the second poll publishes nothing.
    let mut obs = HotkeyObserver::new(KeyCombo::control_shift());
    let snap = held(true, true);
    obs.poll(&snap);
    let after_first = obs.current();
    let write = obs.poll(&snap);
    assert_eq!(write, None);
    assert_eq!(obs.current(), after_first);

    let snap = held(false, false);
    obs.poll(&snap);
    let after_first = obs.current();
    let write = obs.poll(&snap);
    assert_eq!(write, None);
    assert_eq!(obs.current(), after_first);
}

#[test]
fn one_poll_refreshes_after_a_key_change() {
    // A controllable fake key source: after the keys change, a single poll
    // already publishes the new visibility, so a reader is at most one
    // polling interval stale.
    let mut obs = HotkeyObserver::new(KeyCombo::control_shift());
    let presses = [held(true, true), held(true, false), held(true, true), held(false, false)];
    let expected = [
        VisibilityState::Visible,
        VisibilityState::Hidden,
        VisibilityState::Visible,
        VisibilityState::Hidden,
    ];
    for (snap, want) in presses.iter().zip(expected.iter()) {
        obs.poll(snap);
        assert_eq!(obs.current(), *want);
    }
}

#[test]
fn cell_starts_hidden_and_returns_the_last_write() {
    let cell = VisibilityCell::new();
    assert_eq!(cell.read(), VisibilityState::Hidden);
    cell.write(VisibilityState::Visible);
    assert_eq!(cell.read(), VisibilityState::Visible);
    cell.write(VisibilityState::Hidden);
    assert_eq!(cell.read(), VisibilityState::Hidden);
}

#[test]
fn observer_keeps_a_shared_cell_fresh() {
    // The full observer-to-reader path on a controllable fake key source:
    // after each key change, the value a reader sees is already updated by
    // the next poll.
    let cell = VisibilityCell::new();
    let mut obs = HotkeyObserver::new(KeyCombo::control_shift());
    let changes = [held(true, true), held(false, true), held(true, true)];
    let expected = [
        VisibilityState::Visible,
        VisibilityState::Hidden,
        VisibilityState::Visible,
    ];
    for (snap, want) in changes.iter().zip(expected.iter()) {
        if let Some(value) = obs.poll(snap) {
            cell.write(value);
        }
        assert_eq!(cell.read(), *want);
    }
}

#[test]
fn first_poll_with_no_keys_publishes_nothing() {
    // The observer starts hidden and the keys are up: the shared cell is
    // already up to date, so the edge-triggered poll writes nothing.
    let mut obs = HotkeyObserver::new(KeyCombo::control_shift());
    let write = obs.poll(&KeySnapshot::all_released());
    assert_eq!(write, None);
    assert_eq!(obs.current(), VisibilityState::Hidden);
}
