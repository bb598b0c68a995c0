//! The skill-cooldown sweep: which cell of the game's 16x16 sheet of
//! 16-pixel clock frames an overlay samples. Only cells `0..=235` carry ink;
//! frame 0 is the full disc, frame 235 the last sliver.
use vstd::prelude::*;

verus! {

/// The sweep sheet.
pub const WEDGE_ART: &'static str = "media://interface/skill/skill_delay.ddj";

/// Frames per row (and per column) of the sheet.
pub const WEDGE_GRID: usize = 16;

/// One frame's edge, in sheet pixels.
pub const WEDGE_FRAME_PX: u32 = 16;

/// The inked frames, `0..WEDGE_FRAMES`.
pub const WEDGE_FRAMES: usize = 236;

/// A rectangle of sheet pixels, `min` inclusive, `max` exclusive.
#[derive(Clone, Copy, PartialEq, Eq, Structural, Debug)]
pub struct PixelRect {
    pub min_x: u32,
    pub min_y: u32,
    pub max_x: u32,
    pub max_y: u32,
}

/// The frame index actually drawn: past the last inked frame it pins there.
pub open spec fn pinned_frame(index: nat) -> nat {
    if index < WEDGE_FRAMES {
        index
    } else {
        (WEDGE_FRAMES - 1) as nat
    }
}

/// The sheet cell of frame `index`, read row-major.
pub open spec fn spec_wedge_rect(index: nat) -> PixelRect {
    let i = pinned_frame(index);
    let x = (i % 16) * 16;
    let y = (i / 16) * 16;
    PixelRect { min_x: x as u32, min_y: y as u32, max_x: (x + 16) as u32, max_y: (y + 16) as u32 }
}

/// The source rect of sweep frame `index`, row-major in the 16x16 grid; an
/// index past the inked cells samples the last inked one.
pub fn wedge_rect(index: usize) -> (r: PixelRect)
    ensures
        r == spec_wedge_rect(index as nat),
        r.max_x <= 256 && r.max_y <= 256,
        r.max_x == r.min_x + WEDGE_FRAME_PX && r.max_y == r.min_y + WEDGE_FRAME_PX,
{
    let i: usize = if index < WEDGE_FRAMES {
        index
    } else {
        WEDGE_FRAMES - 1
    };
    let x: u32 = ((i % WEDGE_GRID) as u32) * WEDGE_FRAME_PX;
    let y: u32 = ((i / WEDGE_GRID) as u32) * WEDGE_FRAME_PX;
    PixelRect { min_x: x, min_y: y, max_x: x + WEDGE_FRAME_PX, max_y: y + WEDGE_FRAME_PX }
}

/// Distinct inked frames sample distinct cells of the sheet: the sweep never
/// shows one frame in place of another.
pub proof fn law_inked_frames_are_distinct(a: nat, b: nat)
    requires
        a < WEDGE_FRAMES,
        b < WEDGE_FRAMES,
        a != b,
    ensures
        spec_wedge_rect(a) != spec_wedge_rect(b),
{
    assert(a == 16 * (a / 16) + a % 16) by (nonlinear_arith);
    assert(b == 16 * (b / 16) + b % 16) by (nonlinear_arith);
}

} // verus!
