use vstd::prelude::*;
use crate::errors::ToolError;

verus! {

/// A screen-relative pointer position as reported by input events.
#[derive(Clone, Copy, PartialEq, Eq, Structural, Debug)]
pub struct Point {
    pub x: i16,
    pub y: i16,
}

/// A normalized drag rectangle: origin at the component-wise minimum of the
/// two drag endpoints, extent their absolute difference. The origin may be
/// negative when a drag left the screen.
#[derive(Clone, Copy, PartialEq, Eq, Structural, Debug)]
pub struct NormRect {
    pub x: i16,
    pub y: i16,
    pub width: u16,
    pub height: u16,
}

/// A rectangle of screen pixels handed to the capture request.
#[derive(Clone, Copy, PartialEq, Eq, Structural, Debug)]
pub struct CaptureRegion {
    pub x: u16,
    pub y: u16,
    pub width: u16,
    pub height: u16,
}

pub open spec fn min_int(a: int, b: int) -> int {
    if a <= b { a } else { b }
}

pub open spec fn max_int(a: int, b: int) -> int {
    if a <= b { b } else { a }
}

/// The normalized rectangle spanned by two drag endpoints.
pub open spec fn spec_normalize(a: Point, b: Point) -> NormRect {
    NormRect {
        x: min_int(a.x as int, b.x as int) as i16,
        y: min_int(a.y as int, b.y as int) as i16,
        width: (max_int(a.x as int, b.x as int) - min_int(a.x as int, b.x as int)) as u16,
        height: (max_int(a.y as int, b.y as int) - min_int(a.y as int, b.y as int)) as u16,
    }
}

/// Normalize the rectangle spanned by two drag endpoints: origin at the
/// minimum coordinates, extent the absolute coordinate differences.
pub fn normalize(a: Point, b: Point) -> (r: NormRect)
    ensures
        r == spec_normalize(a, b),
        r.x as int == min_int(a.x as int, b.x as int),
        r.y as int == min_int(a.y as int, b.y as int),
        r.width as int == max_int(a.x as int, b.x as int) - min_int(a.x as int, b.x as int),
        r.height as int == max_int(a.y as int, b.y as int) - min_int(a.y as int, b.y as int),
{
    let x1: i16 = if a.x <= b.x { a.x } else { b.x };
    let x2: i16 = if a.x <= b.x { b.x } else { a.x };
    let y1: i16 = if a.y <= b.y { a.y } else { b.y };
    let y2: i16 = if a.y <= b.y { b.y } else { a.y };
    let width: u16 = ((x2 as i32) - (x1 as i32)) as u16;
    let height: u16 = ((y2 as i32) - (y1 as i32)) as u16;
    NormRect { x: x1, y: y1, width, height }
}

/// Normalization is symmetric in its two endpoints: the rectangle does not
/// depend on the direction of the drag.
pub proof fn lemma_normalize_symmetric(a: Point, b: Point)
    ensures
        spec_normalize(a, b) == spec_normalize(b, a),
{
}

/// A capture region is meaningful for a screen exactly when it has positive
/// area and lies entirely within the screen bounds.
pub open spec fn region_in_bounds(reg: CaptureRegion, screen_w: u16, screen_h: u16) -> bool {
    &&& reg.width > 0
    &&& reg.height > 0
    &&& reg.x + reg.width <= screen_w
    &&& reg.y + reg.height <= screen_h
}

/// Whether a normalized drag rectangle can be captured from a screen of the
/// given size: nonnegative origin, positive area, inside the bounds.
pub open spec fn rect_capturable(r: NormRect, screen_w: u16, screen_h: u16) -> bool {
    &&& 0 <= r.x
    &&& 0 <= r.y
    &&& r.width > 0
    &&& r.height > 0
    &&& r.x + r.width <= screen_w
    &&& r.y + r.height <= screen_h
}

/// Turn a finalized drag rectangle into the capture request for the live
/// screen. A rectangle that lies (partly) outside the screen, or starts at a
/// negative coordinate, is one the server would reject: it is refused here
/// as a capture failure.
pub fn plan_extraction(r: NormRect, screen_w: u16, screen_h: u16) -> (res: Result<
    CaptureRegion,
    ToolError,
>)
    ensures
        res is Ok <==> rect_capturable(r, screen_w, screen_h),
        res matches Ok(reg) ==> {
            &&& reg.x as int == r.x as int
            &&& reg.y as int == r.y as int
            &&& reg.width == r.width
            &&& reg.height == r.height
            &&& region_in_bounds(reg, screen_w, screen_h)
        },
        res matches Err(e) ==> e == ToolError::Capture,
{
    if r.x >= 0 && r.y >= 0 && r.width > 0 && r.height > 0 {
        let x: u16 = r.x as u16;
        let y: u16 = r.y as u16;
        if (x as u32) + (r.width as u32) <= (screen_w as u32) && (y as u32) + (r.height as u32)
            <= (screen_h as u32) {
            return Ok(CaptureRegion { x, y, width: r.width, height: r.height });
        }
    }
    Err(ToolError::Capture)
}

/// The region covering the whole screen.
pub fn full_screen_region(screen_w: u16, screen_h: u16) -> (r: CaptureRegion)
    ensures
        r == (CaptureRegion { x: 0u16, y: 0u16, width: screen_w, height: screen_h }),
{
    CaptureRegion { x: 0, y: 0, width: screen_w, height: screen_h }
}

} // verus!
