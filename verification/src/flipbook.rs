//! The sprite-sheet animation the resource grammar describes: a row-major
//! grid of equal tiles walked at a fixed period, looping. This is the grid
//! arithmetic: which tile a frame index samples.
use vstd::prelude::*;

verus! {

/// The grid a sheet is cut into.
#[derive(Clone, Copy, Debug, PartialEq, Eq, Structural)]
pub struct FlipbookGrid {
    /// Frames in the animation.
    pub frame_count: usize,
    /// Tiles per row.
    pub cols: usize,
    /// Rows of tiles.
    pub rows: usize,
}

/// The frame actually drawn for index `frame`: it wraps at the frame count
/// (an empty animation stays on frame 0).
pub open spec fn wrapped_frame(grid: FlipbookGrid, frame: nat) -> nat {
    if grid.frame_count == 0 {
        0
    } else {
        frame % (grid.frame_count as nat)
    }
}

/// The `(column, row)` tile of frame `frame`, row-major across the grid.
pub fn frame_cell(grid: FlipbookGrid, frame: usize) -> (cell: (usize, usize))
    requires
        grid.cols > 0,
    ensures
        cell.0 == wrapped_frame(grid, frame as nat) % (grid.cols as nat),
        cell.1 == wrapped_frame(grid, frame as nat) / (grid.cols as nat),
{
    let f = if grid.frame_count == 0 {
        0
    } else {
        frame % grid.frame_count
    };
    (f % grid.cols, f / grid.cols)
}

/// When the grid holds every frame, every frame's tile is on the sheet.
pub proof fn law_frames_stay_on_the_sheet(grid: FlipbookGrid, frame: nat)
    requires
        grid.cols > 0,
        grid.frame_count <= grid.cols * grid.rows,
    ensures
        wrapped_frame(grid, frame) % (grid.cols as nat) < grid.cols,
        wrapped_frame(grid, frame) / (grid.cols as nat) < grid.rows || grid.frame_count == 0,
{
    let f = wrapped_frame(grid, frame);
    if grid.frame_count > 0 {
        assert(f < grid.frame_count);
        assert(f / (grid.cols as nat) < grid.rows) by (nonlinear_arith)
            requires
                f < grid.cols * grid.rows,
                grid.cols > 0,
        ;
    }
}

/// The animation loops: frame `n` and frame `n + frame_count` sample the
/// same tile.
pub proof fn law_the_animation_loops(grid: FlipbookGrid, frame: nat)
    requires
        grid.frame_count > 0,
    ensures
        wrapped_frame(grid, frame + grid.frame_count as nat) == wrapped_frame(grid, frame),
{
    let n = grid.frame_count as nat;
    assert((frame + n) % n == frame % n) by (nonlinear_arith)
        requires
            n > 0,
    ;
}

} // verus!
