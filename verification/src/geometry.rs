//! Validation of a persisted window rectangle and the off-screen check.
//!
//! A persisted rectangle is four integers `[width, height, x, y]` in logical
//! (scale-independent) units. It is restored only when all four fields are
//! present; a too-small width or height is clamped to the minimum, never
//! rejected. After the window exists, an off-screen check decides whether the
//! restored position must be abandoned in favour of re-centering; a failed
//! monitor or position lookup re-centers as well (fail-safe toward
//! visibility).

use vstd::prelude::*;

verus! {

/// Smallest width a restored window may have, in logical units.
pub const MIN_WIDTH: i64 = 600;

/// Smallest height a restored window may have, in logical units.
pub const MIN_HEIGHT: i64 = 520;

/// A window rectangle in logical units.
#[derive(Clone, Copy, Debug, PartialEq, Eq, Structural)]
pub struct WindowRect {
    pub width: i64,
    pub height: i64,
    pub x: i64,
    pub y: i64,
}

/// What window placement the persisted state yields.
#[derive(Clone, Copy, Debug, PartialEq, Eq, Structural)]
pub enum PlacementDecision {
    /// Restore the persisted rectangle (already clamped to the minimum size).
    UsePersisted(WindowRect),
    /// Nothing usable was persisted: take the platform's default size and
    /// center the window.
    UsePlatformDefault,
}

/// The physical pixel size of the monitor the window ended up on.
#[derive(Clone, Copy, Debug, PartialEq, Eq, Structural)]
pub struct MonitorSize {
    pub width: u32,
    pub height: u32,
}

/// The physical position of the window's top-left corner.
#[derive(Clone, Copy, Debug, PartialEq, Eq, Structural)]
pub struct WindowPoint {
    pub x: i32,
    pub y: i32,
}

/// The persisted size-and-position list as a sequence, when present.
pub open spec fn size_pos_view(size_pos: Option<Vec<i64>>) -> Option<Seq<i64>> {
    match size_pos {
        Some(v) => Some(v@),
        None => None,
    }
}

/// A width clamped up to the minimum.
pub open spec fn clamped_width(w: i64) -> i64 {
    if w < MIN_WIDTH {
        MIN_WIDTH
    } else {
        w
    }
}

/// A height clamped up to the minimum.
pub open spec fn clamped_height(h: i64) -> i64 {
    if h < MIN_HEIGHT {
        MIN_HEIGHT
    } else {
        h
    }
}

/// The placement a persisted list yields: the clamped rectangle when all
/// four fields are present, the platform default otherwise.
pub open spec fn validate_spec(size_pos: Option<Seq<i64>>) -> PlacementDecision {
    match size_pos {
        Some(v) => if v.len() == 4 {
            PlacementDecision::UsePersisted(
                WindowRect {
                    width: clamped_width(v[0]),
                    height: clamped_height(v[1]),
                    x: v[2],
                    y: v[3],
                },
            )
        } else {
            PlacementDecision::UsePlatformDefault
        },
        None => PlacementDecision::UsePlatformDefault,
    }
}

/// Validate a persisted size-and-position list. A list of four entries is
/// restored with width and height clamped up to the minimums; anything else
/// falls back to the platform default.
pub fn validate(size_pos: &Option<Vec<i64>>) -> (decision: PlacementDecision)
    ensures
        decision == validate_spec(size_pos_view(*size_pos)),
{
    match size_pos {
        Some(v) => {
            if v.len() == 4 {
                let w = v[0];
                let h = v[1];
                PlacementDecision::UsePersisted(
                    WindowRect {
                        width: if w < MIN_WIDTH {
                            MIN_WIDTH
                        } else {
                            w
                        },
                        height: if h < MIN_HEIGHT {
                            MIN_HEIGHT
                        } else {
                            h
                        },
                        x: v[2],
                        y: v[3],
                    },
                )
            } else {
                PlacementDecision::UsePlatformDefault
            }
        },
        None => PlacementDecision::UsePlatformDefault,
    }
}

/// Whether the window must be re-centered: its top-left corner lies outside
/// `[-400, W-200]` horizontally or `[-200, H-200]` vertically (strict
/// comparisons), or the monitor or position lookup failed.
pub open spec fn recenter_spec(monitor: Option<MonitorSize>, pos: Option<WindowPoint>) -> bool {
    match (monitor, pos) {
        (Some(m), Some(p)) => p.x < -400 || p.x > m.width - 200 || p.y < -200 || p.y > m.height
            - 200,
        _ => true,
    }
}

/// Decide whether the window must be re-centered after creation. Lookup
/// failure (`None`) re-centers: visibility wins over fidelity.
pub fn should_recenter(monitor: &Option<MonitorSize>, pos: &Option<WindowPoint>) -> (recenter:
    bool)
    ensures
        recenter == recenter_spec(*monitor, *pos),
{
    match (monitor, pos) {
        (Some(m), Some(p)) => {
            let x = p.x as i64;
            let y = p.y as i64;
            let w = m.width as i64;
            let h = m.height as i64;
            x < -400 || x > w - 200 || y < -200 || y > h - 200
        },
        _ => true,
    }
}

/// A four-field rectangle is never rejected outright: a too-small width or
/// height is clamped up to the minimum on that axis, and the position is
/// kept as it was.
pub proof fn lemma_small_rect_clamped(width: i64, height: i64, x: i64, y: i64)
    ensures
        validate_spec(Some(seq![width, height, x, y])) == PlacementDecision::UsePersisted(
            (WindowRect { width: clamped_width(width), height: clamped_height(height), x, y }),
        ),
        clamped_width(width) >= MIN_WIDTH,
        clamped_height(height) >= MIN_HEIGHT,
{
}

/// A persisted list with a missing field — anything but exactly four
/// entries, or nothing persisted at all — yields the platform default.
pub proof fn lemma_missing_field_defaults(size_pos: Option<Seq<i64>>)
    requires
        size_pos matches Some(v) ==> v.len() != 4,
    ensures
        validate_spec(size_pos) == PlacementDecision::UsePlatformDefault,
{
}

/// Restoring any four-field rectangle that already meets the minimum size
/// hands it back unchanged: persisting a valid geometry and validating it is
/// a round trip.
pub proof fn lemma_geometry_round_trip(width: i64, height: i64, x: i64, y: i64)
    requires
        width >= MIN_WIDTH,
        height >= MIN_HEIGHT,
    ensures
        validate_spec(Some(seq![width, height, x, y])) == PlacementDecision::UsePersisted(
            (WindowRect { width, height, x, y }),
        ),
{
}

} // verus!
