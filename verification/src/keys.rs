//! Modifier-key state and activation combos.
//!
//! A `KeySnapshot` is one sample of the physical modifier keys, as handed in
//! by whatever samples the keyboard. A `KeyCombo` names the abstract
//! modifiers that must all be asserted at once to trigger activation; an
//! abstract modifier counts as asserted when either its left or its right
//! physical key is down.

use vstd::prelude::*;

verus! {

/// One sample of the physical modifier keys: each field is true when that
/// key was down at sampling time.
#[derive(Clone, Copy, Debug, PartialEq, Eq, Structural)]
pub struct KeySnapshot {
    pub left_control: bool,
    pub right_control: bool,
    pub left_shift: bool,
    pub right_shift: bool,
    pub left_alt: bool,
    pub right_alt: bool,
    pub left_meta: bool,
    pub right_meta: bool,
}

/// The abstract modifiers that must all be held to trigger activation.
/// A configuration constant: built once, never mutated at runtime.
#[derive(Clone, Copy, Debug, PartialEq, Eq, Structural)]
pub struct KeyCombo {
    pub control: bool,
    pub shift: bool,
    pub alt: bool,
    pub meta: bool,
}

impl KeySnapshot {
    /// A sample with every key up.
    pub fn all_released() -> (r: KeySnapshot)
        ensures
            r == (KeySnapshot {
                left_control: false,
                right_control: false,
                left_shift: false,
                right_shift: false,
                left_alt: false,
                right_alt: false,
                left_meta: false,
                right_meta: false,
            }),
    {
        KeySnapshot {
            left_control: false,
            right_control: false,
            left_shift: false,
            right_shift: false,
            left_alt: false,
            right_alt: false,
            left_meta: false,
            right_meta: false,
        }
    }

    /// Whether the abstract control modifier is asserted.
    pub open spec fn control_asserted(self) -> bool {
        self.left_control || self.right_control
    }

    /// Whether the abstract shift modifier is asserted.
    pub open spec fn shift_asserted(self) -> bool {
        self.left_shift || self.right_shift
    }

    /// Whether the abstract alt modifier is asserted.
    pub open spec fn alt_asserted(self) -> bool {
        self.left_alt || self.right_alt
    }

    /// Whether the abstract meta modifier is asserted.
    pub open spec fn meta_asserted(self) -> bool {
        self.left_meta || self.right_meta
    }
}

impl KeyCombo {
    /// The default activation combo: control and shift held together.
    pub fn control_shift() -> (r: KeyCombo)
        ensures
            r == (KeyCombo { control: true, shift: true, alt: false, meta: false }),
    {
        KeyCombo { control: true, shift: true, alt: false, meta: false }
    }

    /// Whether every modifier the combo requires is asserted in `snap`.
    pub open spec fn satisfied_by(self, snap: KeySnapshot) -> bool {
        &&& self.control ==> snap.control_asserted()
        &&& self.shift ==> snap.shift_asserted()
        &&& self.alt ==> snap.alt_asserted()
        &&& self.meta ==> snap.meta_asserted()
    }

    /// Decides whether a sample satisfies the combo: every required modifier
    /// must be asserted simultaneously.
    pub fn is_satisfied_by(&self, snap: &KeySnapshot) -> (r: bool)
        ensures
            r == self.satisfied_by(*snap),
    {
        let control_ok = !self.control || snap.left_control || snap.right_control;
        let shift_ok = !self.shift || snap.left_shift || snap.right_shift;
        let alt_ok = !self.alt || snap.left_alt || snap.right_alt;
        let meta_ok = !self.meta || snap.left_meta || snap.right_meta;
        control_ok && shift_ok && alt_ok && meta_ok
    }
}

} // verus!
