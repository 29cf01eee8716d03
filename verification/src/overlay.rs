use vstd::prelude::*;
use crate::errors::ToolError;
use crate::geometry::{NormRect, spec_normalize, normalize};
use crate::selection::SelectionState;

verus! {

/// The fixed accent color of the selection outline, as a packed
/// 0x00RRGGBB pixel value.
pub const ACCENT_COLOR: u32 = 0x4099FF;

/// The thickness of the selection outline, in pixels.
pub const OUTLINE_THICKNESS: u16 = 3;

/// Whether a pixel lies inside the closed bounds of a normalized rectangle.
pub open spec fn in_rect(r: NormRect, x: int, y: int) -> bool {
    &&& r.x <= x <= r.x + r.width
    &&& r.y <= y <= r.y + r.height
}

/// Whether a pixel belongs to the rectangle's outline: inside its bounds
/// and within the outline thickness of one of the four edges.
pub open spec fn on_outline(r: NormRect, x: int, y: int) -> bool {
    &&& in_rect(r, x, y)
    &&& {
        ||| x < r.x + OUTLINE_THICKNESS
        ||| x > r.x + r.width - OUTLINE_THICKNESS
        ||| y < r.y + OUTLINE_THICKNESS
        ||| y > r.y + r.height - OUTLINE_THICKNESS
    }
}

/// The rectangle the overlay draws for a selection state: none while idle,
/// the normalized drag rectangle while dragging.
pub open spec fn overlay_rect(state: SelectionState) -> Option<NormRect> {
    match state {
        SelectionState::Idle => None,
        SelectionState::Dragging { start, current } => Some(spec_normalize(start, current)),
    }
}

/// The visible surface a redraw produces: the cached pixmap presented
/// unchanged, with the selection outline (if any) painted over it in the
/// accent color. A function of the pixmap and the selection state alone:
/// the previous window contents never enter.
pub open spec fn spec_rendered(pixmap: Seq<u32>, width: u16, state: SelectionState) -> Seq<u32> {
    Seq::new(
        pixmap.len(),
        |i: int|
            match overlay_rect(state) {
                Some(r) => {
                    if width > 0 && on_outline(r, i % (width as int), i / (width as int)) {
                        ACCENT_COLOR
                    } else {
                        pixmap[i]
                    }
                },
                None => pixmap[i],
            },
    )
}

/// Decide whether the pixel at (x, y) lies on the outline of `r`.
fn on_outline_at(r: &NormRect, x: usize, y: usize) -> (b: bool)
    requires
        x <= 0xFFFF,
        y <= 0xFFFF,
    ensures
        b == on_outline(*r, x as int, y as int),
{
    let xi: i64 = x as i64;
    let yi: i64 = y as i64;
    let left: i64 = r.x as i64;
    let right: i64 = left + r.width as i64;
    let top: i64 = r.y as i64;
    let bottom: i64 = top + r.height as i64;
    let t: i64 = OUTLINE_THICKNESS as i64;
    let inside = left <= xi && xi <= right && top <= yi && yi <= bottom;
    inside && (xi < left + t || xi > right - t || yi < top + t || yi > bottom - t)
}

/// Compose one visible frame: the cached pixmap with the selection outline
/// for `state` painted over it.
fn render(pixmap: &Vec<u32>, width: u16, height: u16, state: &SelectionState) -> (out: Vec<u32>)
    requires
        width > 0,
        pixmap@.len() == (width as int) * (height as int),
    ensures
        out@ == spec_rendered(pixmap@, width, *state),
{
    let rect_opt: Option<NormRect> = match state {
        SelectionState::Idle => None,
        SelectionState::Dragging { start, current } => Some(normalize(*start, *current)),
    };
    let len = pixmap.len();
    let w = width as usize;
    let mut out: Vec<u32> = Vec::new();
    let mut i: usize = 0;
    while i < len
        invariant
            w == width as int,
            width > 0,
            len == pixmap@.len(),
            pixmap@.len() == (width as int) * (height as int),
            rect_opt == overlay_rect(*state),
            i <= len,
            out@.len() == i,
            forall|j: int| 0 <= j < i ==> out@[j] == spec_rendered(pixmap@, width, *state)[j],
        decreases len - i,
    {
        let x = i % w;
        let y = i / w;
        proof {
            assert(y < height as int) by (nonlinear_arith)
                requires
                    i < (width as int) * (height as int),
                    y == i as int / (width as int),
                    width > 0,
            ;
        }
        let v: u32 = match &rect_opt {
            Some(r) => {
                if on_outline_at(r, x, y) {
                    ACCENT_COLOR
                } else {
                    pixmap[i]
                }
            },
            None => pixmap[i],
        };
        out.push(v);
        i = i + 1;
    }
    proof {
        assert(out@ =~= spec_rendered(pixmap@, width, *state));
    }
    out
}

/// The overlay's two surfaces: the offscreen pixmap caching the initial
/// full-screen snapshot, and the visible window surface. One packed pixel
/// value per cell, row-major.
pub struct DoubleBuffer {
    pub width: u16,
    pub height: u16,
    pub pixmap: Vec<u32>,
    pub window: Vec<u32>,
}

impl DoubleBuffer {
    /// Both surfaces sized to the full screen, which is nonempty.
    pub open spec fn wf(self) -> bool {
        &&& self.width > 0
        &&& self.height > 0
        &&& self.pixmap@.len() == (self.width as int) * (self.height as int)
        &&& self.window@.len() == (self.width as int) * (self.height as int)
    }

    /// What one redraw does: the geometry and the cached pixmap are left
    /// untouched, and the window surface becomes exactly the frame rendered
    /// from the pixmap and the selection state.
    pub open spec fn redraw_post(pre: DoubleBuffer, post: DoubleBuffer, state: SelectionState) -> bool {
        &&& post.width == pre.width
        &&& post.height == pre.height
        &&& post.pixmap == pre.pixmap
        &&& post.window@ == spec_rendered(pre.pixmap@, pre.width, state)
    }

    /// Seed the double buffer with the initial full-screen snapshot: the
    /// snapshot is blitted into the offscreen pixmap exactly once, and the
    /// window starts out presenting it. Fails when the snapshot does not
    /// cover a nonempty width x height surface.
    pub fn new(width: u16, height: u16, snapshot: Vec<u32>) -> (r: Result<DoubleBuffer, ToolError>)
        ensures
            r is Ok <==> (width > 0 && height > 0 && snapshot@.len() == (width as int) * (
            height as int)),
            r matches Ok(b) ==> {
                &&& b.wf()
                &&& b.width == width
                &&& b.height == height
                &&& b.pixmap@ == snapshot@
                &&& b.window@ == snapshot@
            },
            r matches Err(e) ==> e == ToolError::ResourceCreation,
    {
        proof {
            assert((width as int) * (height as int) < 0x1_0000_0000) by (nonlinear_arith)
                requires
                    width <= 0xFFFF,
                    height <= 0xFFFF,
            ;
        }
        let expected: u64 = (width as u64) * (height as u64);
        if width > 0 && height > 0 && snapshot.len() as u64 == expected {
            let window = snapshot.clone();
            proof {
                assert(window@ =~= snapshot@);
            }
            Ok(DoubleBuffer { width, height, pixmap: snapshot, window })
        } else {
            Err(ToolError::ResourceCreation)
        }
    }

    /// Present one frame: copy the cached pixmap to the visible surface and,
    /// while a drag is active, paint the normalized selection outline over
    /// it. The pixmap itself is never written after seeding, so the outline
    /// never accumulates onto the cached background.
    pub fn redraw(&mut self, state: &SelectionState)
        requires
            old(self).wf(),
        ensures
            final(self).wf(),
            DoubleBuffer::redraw_post(*old(self), *final(self), *state),
    {
        let frame = render(&self.pixmap, self.width, self.height, state);
        proof {
            assert(frame@.len() == self.pixmap@.len());
        }
        self.window = frame;
    }
}

/// Redraw idempotence: two consecutive redraws with an unchanged selection
/// state produce pixel-identical visible output. The second redraw reads
/// only the untouched pixmap and the state, never the window contents the
/// first redraw left behind, so nothing drifts or accumulates.
pub proof fn lemma_redraw_idempotent(
    b0: DoubleBuffer,
    b1: DoubleBuffer,
    b2: DoubleBuffer,
    state: SelectionState,
)
    requires
        DoubleBuffer::redraw_post(b0, b1, state),
        DoubleBuffer::redraw_post(b1, b2, state),
    ensures
        b2.window@ == b1.window@,
{
}

} // verus!
