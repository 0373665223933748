use platelayout::layout::{layout, BoundingBox, PathSpec, Rectangle};
use platelayout::render::{assemble, layout_document};

fn rect(width: usize, height: usize) -> Rectangle {
    Rectangle { width, height }
}

#[test]
fn document_holds_outline_paths() {
    let rects = vec![rect(6, 3), rect(6, 3), rect(2, 4), rect(2, 4), rect(8, 2)];
    let doc = layout_document(&rects);
    let text = doc.to_string();
    assert!(text.contains("viewBox=\"0 0 36 26\""));
    assert!(text.contains("width=\"36mm\""));
    assert!(text.contains("height=\"26mm\""));
    assert_eq!(text.matches("<path").count(), 5);
    // One relative closed outline per rectangle, anchored where the layout
    // placed it.
    assert!(text.contains("d=\"m10,10 l0,3 l6,0 l0,-3 z\""));
    assert!(text.contains("d=\"m16,10 l0,3 l6,0 l0,-3 z\""));
    assert!(text.contains("d=\"m22,10 l0,4 l2,0 l0,-4 z\""));
    assert!(text.contains("d=\"m24,10 l0,4 l2,0 l0,-4 z\""));
    assert!(text.contains("d=\"m10,14 l0,2 l8,0 l0,-2 z\""));
    // Stroke-only styling with a fixed stroke width.
    assert!(text.contains("fill=\"none\""));
    assert!(text.contains("stroke=\"black\""));
    assert!(text.contains("stroke-width=\"0.05\""));
}

#[test]
fn empty_document() {
    let doc = layout_document(&Vec::new());
    let text = doc.to_string();
    assert!(text.contains("viewBox=\"0 0 20 20\""));
    assert!(text.contains("width=\"20mm\""));
    assert!(text.contains("height=\"20mm\""));
    assert!(!text.contains("<path"));
}

#[test]
fn assemble_matches_layout_and_document() {
    let rects = vec![rect(5, 5), rect(1, 2)];
    let (paths, bb) = layout(&rects);
    assert_eq!(
        paths,
        vec![
            PathSpec { x: 10, y: 10, width: 5, height: 5 },
            PathSpec { x: 15, y: 10, width: 1, height: 2 },
        ]
    );
    assert_eq!(bb, BoundingBox { x0: 0, y0: 0, width: 26, height: 25 });
    let assembled = assemble(&paths, &bb).to_string();
    let direct = layout_document(&rects).to_string();
    assert_eq!(assembled, direct);
    assert!(assembled.contains("d=\"m10,10 l0,5 l5,0 l0,-5 z\""));
    assert!(assembled.contains("d=\"m15,10 l0,2 l1,0 l0,-2 z\""));
    assert!(assembled.contains("viewBox=\"0 0 26 25\""));
}
