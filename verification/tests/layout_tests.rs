use platelayout::layout::{
    emit_outline, layout, BoundingBox, Cursor, LayoutState, PathSpec, Rectangle, MARGIN, ROW_SIZE,
};

fn rect(width: usize, height: usize) -> Rectangle {
    Rectangle { width, height }
}

fn scenario_rects() -> Vec<Rectangle> {
    vec![rect(6, 3), rect(6, 3), rect(2, 4), rect(2, 4), rect(8, 2)]
}

#[test]
fn constants() {
    assert_eq!(MARGIN, 10);
    assert_eq!(ROW_SIZE, 4);
}

#[test]
fn end_to_end_scenario() {
    let (paths, bb) = layout(&scenario_rects());
    let expected = vec![
        PathSpec { x: 10, y: 10, width: 6, height: 3 },
        PathSpec { x: 16, y: 10, width: 6, height: 3 },
        PathSpec { x: 22, y: 10, width: 2, height: 4 },
        PathSpec { x: 24, y: 10, width: 2, height: 4 },
        PathSpec { x: 10, y: 14, width: 8, height: 2 },
    ];
    assert_eq!(paths, expected);
    assert_eq!(bb, BoundingBox { x0: 0, y0: 0, width: 36, height: 26 });
}

#[test]
fn empty_input() {
    let (paths, bb) = layout(&Vec::new());
    assert!(paths.is_empty());
    // The flushed extents of an empty layout are MARGIN each; the bounding
    // box adds one more MARGIN in either direction.
    assert_eq!(bb, BoundingBox { x0: 0, y0: 0, width: 2 * MARGIN, height: 2 * MARGIN });
}

#[test]
fn deterministic() {
    let first = layout(&scenario_rects());
    let second = layout(&scenario_rects());
    assert_eq!(first.0, second.0);
    assert_eq!(first.1, second.1);
}

#[test]
fn monotonic_bounding_box() {
    let rects = vec![
        rect(5, 9),
        rect(1, 1),
        rect(7, 2),
        rect(3, 3),
        rect(2, 8),
        rect(4, 1),
        rect(6, 6),
    ];
    let mut last_width = 0;
    let mut last_height = 0;
    for n in 0..=rects.len() {
        let prefix: Vec<Rectangle> = rects[..n].to_vec();
        let (_, bb) = layout(&prefix);
        assert!(bb.width >= last_width);
        assert!(bb.height >= last_height);
        assert!(bb.width >= MARGIN);
        assert!(bb.height >= MARGIN);
        last_width = bb.width;
        last_height = bb.height;
    }
}

#[test]
fn row_wrap_positions() {
    // Two full rows of four: a wrap happens exactly after the 4th and the
    // 8th rectangle, and the cursor drops by the completed row's maximum
    // height (5 for the first row, 7 for the second).
    let rects = vec![
        rect(3, 5),
        rect(4, 1),
        rect(2, 2),
        rect(6, 4),
        rect(1, 7),
        rect(2, 2),
        rect(3, 3),
        rect(4, 4),
        rect(9, 9),
    ];
    let (paths, _) = layout(&rects);
    // First row anchors: only horizontal advance.
    assert_eq!((paths[0].x, paths[0].y), (10, 10));
    assert_eq!((paths[1].x, paths[1].y), (13, 10));
    assert_eq!((paths[2].x, paths[2].y), (17, 10));
    assert_eq!((paths[3].x, paths[3].y), (19, 10));
    // Wrap after the 4th rectangle: back to MARGIN, down by 5.
    assert_eq!((paths[4].x, paths[4].y), (10, 15));
    assert_eq!((paths[5].x, paths[5].y), (11, 15));
    assert_eq!((paths[6].x, paths[6].y), (13, 15));
    assert_eq!((paths[7].x, paths[7].y), (16, 15));
    // Wrap after the 8th rectangle: back to MARGIN, down by 7.
    assert_eq!((paths[8].x, paths[8].y), (10, 22));
}

#[test]
fn outline_anchor_and_dimensions() {
    let p = emit_outline(&Cursor { x: 5, y: 7 }, &rect(3, 2));
    assert_eq!(p, PathSpec { x: 5, y: 7, width: 3, height: 2 });
}

#[test]
fn zero_dimension_rectangle() {
    let (paths, bb) = layout(&vec![rect(0, 0)]);
    assert_eq!(paths, vec![PathSpec { x: 10, y: 10, width: 0, height: 0 }]);
    assert_eq!(bb, BoundingBox { x0: 0, y0: 0, width: 20, height: 20 });
}

#[test]
fn layout_state_bookkeeping() {
    let mut state = LayoutState::new();
    assert_eq!((state.cursor.x, state.cursor.y), (MARGIN, MARGIN));
    assert_eq!(state.row_item_count, 0);
    assert_eq!(state.row_running_width, MARGIN);
    assert_eq!(state.total_height, MARGIN);
    assert_eq!(state.max_row_width, 0);

    let p = state.place(&rect(6, 3));
    assert_eq!(p, PathSpec { x: 10, y: 10, width: 6, height: 3 });
    assert_eq!(state.row_item_count, 1);
    assert_eq!(state.row_max_height, 3);
    assert_eq!(state.row_running_width, 16);
    assert_eq!((state.cursor.x, state.cursor.y), (16, 10));

    state.place(&rect(6, 3));
    state.place(&rect(2, 4));
    state.place(&rect(2, 4));
    // The fourth rectangle completed the row: folded and reset.
    assert_eq!(state.row_item_count, 0);
    assert_eq!(state.row_max_height, 0);
    assert_eq!(state.row_running_width, MARGIN);
    assert_eq!(state.total_height, 14);
    assert_eq!(state.max_row_width, 26);
    assert_eq!((state.cursor.x, state.cursor.y), (10, 14));

    state.place(&rect(8, 2));
    let bb = state.finish();
    assert_eq!(bb, BoundingBox { x0: 0, y0: 0, width: 36, height: 26 });
}
