use sro_hud::cooldown::{wedge_rect, PixelRect, WEDGE_FRAMES, WEDGE_FRAME_PX};

fn rect(min_x: u32, min_y: u32, max_x: u32, max_y: u32) -> PixelRect {
    PixelRect { min_x, min_y, max_x, max_y }
}

#[test]
fn wedge_rects_tile_the_sheet_row_major() {
    assert_eq!(wedge_rect(0), rect(0, 0, 16, 16));
    assert_eq!(wedge_rect(15), rect(240, 0, 256, 16));
    assert_eq!(wedge_rect(16), rect(0, 16, 16, 32));
    // the last inked cell: 235 = row 14, column 11
    assert_eq!(wedge_rect(WEDGE_FRAMES - 1), rect(176, 224, 192, 240));
    for index in 0..WEDGE_FRAMES {
        let r = wedge_rect(index);
        assert!(r.max_x <= 256 && r.max_y <= 256);
        assert_eq!((r.max_x - r.min_x, r.max_y - r.min_y), (WEDGE_FRAME_PX, WEDGE_FRAME_PX));
    }
    assert_eq!(wedge_rect(WEDGE_FRAMES), wedge_rect(WEDGE_FRAMES - 1));
    assert_eq!(wedge_rect(usize::MAX), wedge_rect(WEDGE_FRAMES - 1));
}

#[test]
fn no_two_inked_frames_share_a_cell() {
    let mut seen: Vec<PixelRect> = (0..WEDGE_FRAMES).map(wedge_rect).collect();
    seen.sort_by_key(|r| (r.min_y, r.min_x));
    seen.dedup();
    assert_eq!(seen.len(), WEDGE_FRAMES);
}
