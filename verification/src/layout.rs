//! Geometric layout of shortcut slots.
//!
//! Pure functions from a slot count and a fixed container geometry to one
//! position per slot; safe to call every frame. Radial positions are given in
//! polar form — a fraction of a full turn around the center at a fixed
//! radius — since the fraction, center and radius describe the slot exactly
//! in integers; turning them into Cartesian pixels is the renderer's concern.
//! Slot rectangles are not guaranteed non-overlapping for very large counts
//! relative to the radius: an accepted degradation, not corrected here.

use vstd::prelude::*;

verus! {

/// The fixed container geometry of the radial layout: a center point and the
/// distance from it at which every slot sits.
#[derive(Clone, Copy, Debug, PartialEq, Eq, Structural)]
pub struct Geometry {
    pub center_x: i32,
    pub center_y: i32,
    pub radius: u32,
}

/// One slot's position in polar form: at distance `radius` from
/// (`center_x`, `center_y`), at the angle that is `turn_numerator` /
/// `turn_denominator` of a full turn, measured from angle zero.
#[derive(Clone, Copy, Debug, PartialEq, Eq, Structural)]
pub struct SlotPos {
    pub center_x: i32,
    pub center_y: i32,
    pub radius: u32,
    pub turn_numerator: usize,
    pub turn_denominator: usize,
}

/// The position of slot `i` of `n` in `geom`: the fraction `i / n` of a full
/// turn around the center, at the fixed radius.
pub open spec fn radial_slot(geom: Geometry, i: int, n: int) -> SlotPos {
    SlotPos {
        center_x: geom.center_x,
        center_y: geom.center_y,
        radius: geom.radius,
        turn_numerator: i as usize,
        turn_denominator: n as usize,
    }
}

/// Lays out `n` slots radially in `geom`: exactly one position per slot,
/// slot `i` at the fraction `i / n` of a full turn. For `n == 0` the layout
/// is empty; for `n == 1` the single slot sits at angle zero. The angle is
/// kept as a fraction, so no division by `n` is ever performed.
pub fn layout(n: usize, geom: &Geometry) -> (r: Vec<SlotPos>)
    ensures
        r@.len() == n,
        forall|i: int| 0 <= i < n ==> r@[i] == radial_slot(*geom, i, n as int),
{
    let mut slots: Vec<SlotPos> = Vec::new();
    let mut i: usize = 0;
    while i < n
        invariant
            i <= n,
            slots@.len() == i,
            forall|j: int| 0 <= j < i ==> slots@[j] == radial_slot(*geom, j, n as int),
        decreases n - i,
    {
        slots.push(
            SlotPos {
                center_x: geom.center_x,
                center_y: geom.center_y,
                radius: geom.radius,
                turn_numerator: i,
                turn_denominator: n,
            },
        );
        i = i + 1;
    }
    slots
}

/// The exact Cartesian point of a slot whose angle is a whole multiple of a
/// quarter turn, with the vertical axis growing downward as screen
/// coordinates do; no other angle has an exact integer position.
pub open spec fn cardinal_point_of(s: SlotPos) -> Option<RowPos> {
    if s.turn_denominator > 0 && s.turn_numerator < s.turn_denominator {
        if s.turn_numerator == 0 {
            Some(RowPos { x: (s.center_x + s.radius) as i64, y: s.center_y as i64 })
        } else if 4 * s.turn_numerator == s.turn_denominator {
            Some(RowPos { x: s.center_x as i64, y: (s.center_y + s.radius) as i64 })
        } else if 2 * s.turn_numerator == s.turn_denominator {
            Some(RowPos { x: (s.center_x - s.radius) as i64, y: s.center_y as i64 })
        } else if 4 * s.turn_numerator == 3 * s.turn_denominator {
            Some(RowPos { x: s.center_x as i64, y: (s.center_y - s.radius) as i64 })
        } else {
            None
        }
    } else {
        None
    }
}

/// Converts a slot's polar position to Cartesian pixels where that is exact:
/// at angle zero the slot sits `radius` to the right of the center, at a
/// quarter turn `radius` below it, at a half turn `radius` to its left, at
/// three quarters `radius` above it. Any other angle needs trigonometry and
/// is the renderer's to approximate.
pub fn cardinal_point(slot: &SlotPos) -> (r: Option<RowPos>)
    ensures
        r == cardinal_point_of(*slot),
{
    let num = slot.turn_numerator as u128;
    let den = slot.turn_denominator as u128;
    if den == 0 || num >= den {
        return None;
    }
    let cx = slot.center_x as i64;
    let cy = slot.center_y as i64;
    let radius = slot.radius as i64;
    if num == 0 {
        Some(RowPos { x: cx + radius, y: cy })
    } else if 4 * num == den {
        Some(RowPos { x: cx, y: cy + radius })
    } else if 2 * num == den {
        Some(RowPos { x: cx - radius, y: cy })
    } else if 4 * num == 3 * den {
        Some(RowPos { x: cx, y: cy - radius })
    } else {
        None
    }
}

/// The fixed container geometry of the list layout: the first row's top-left
/// corner and the vertical pitch between successive rows.
#[derive(Clone, Copy, Debug, PartialEq, Eq, Structural)]
pub struct ListGeometry {
    pub origin_x: i64,
    pub origin_y: i64,
    pub row_pitch: u32,
}

/// One row's position in Cartesian pixels.
#[derive(Clone, Copy, Debug, PartialEq, Eq, Structural)]
pub struct RowPos {
    pub x: i64,
    pub y: i64,
}

/// Lays out `n` slots as a vertical list in `geom`: exactly one position per
/// slot, row `i` at the origin shifted down by `i` times the row pitch. The
/// precondition only keeps the lowest row's coordinate within the machine
/// integer range.
pub fn list_layout(n: usize, geom: &ListGeometry) -> (r: Vec<RowPos>)
    requires
        geom.origin_y + n * geom.row_pitch <= i64::MAX,
    ensures
        r@.len() == n,
        forall|i: int| 0 <= i < n ==> r@[i] == (RowPos {
            x: geom.origin_x,
            y: (geom.origin_y + i * geom.row_pitch) as i64,
        }),
{
    let mut rows: Vec<RowPos> = Vec::new();
    let mut i: usize = 0;
    let mut y: i64 = geom.origin_y;
    while i < n
        invariant
            i <= n,
            rows@.len() == i,
            y == geom.origin_y + i * geom.row_pitch,
            geom.origin_y + n * geom.row_pitch <= i64::MAX,
            forall|j: int| 0 <= j < i ==> rows@[j] == (RowPos {
                x: geom.origin_x,
                y: (geom.origin_y + j * geom.row_pitch) as i64,
            }),
        decreases n - i,
    {
        rows.push(RowPos { x: geom.origin_x, y });
        proof {
            assert((i + 1) * geom.row_pitch == i * geom.row_pitch + geom.row_pitch)
                by (nonlinear_arith);
            assert(i + 1 <= n);
            assert((i + 1) * geom.row_pitch <= n * geom.row_pitch) by (nonlinear_arith)
                requires
                    i + 1 <= n,
                    geom.row_pitch >= 0,
            ;
        }
        y = y + geom.row_pitch as i64;
        i = i + 1;
    }
    rows
}

} // verus!
