use waveline::geometry::{generate, map_range, Topology, Vertex};

const S: i64 = 1_000_000;
const PADDING: i64 = 100_000;

#[test]
fn geometry_counts() {
    let (center, lines, border) = generate(PADDING, 100);
    assert_eq!(center.vertices.len(), 101);
    assert_eq!(lines.vertices.len(), 808);
    assert_eq!(border.vertices.len(), 4);
    assert_eq!(center.topology, Topology::LineStrip);
    assert_eq!(lines.topology, Topology::SegmentList);
    assert_eq!(border.topology, Topology::ClosedLoop);
}

#[test]
fn geometry_in_device_range() {
    let (center, lines, border) = generate(PADDING, 100);
    for set in [&center, &lines, &border] {
        for v in set.vertices.iter() {
            assert!(-S <= v.x && v.x <= S);
            assert!(-S <= v.y && v.y <= S);
        }
    }
}

#[test]
fn border_corners_in_order() {
    let (_, _, border) = generate(PADDING, 100);
    assert_eq!(border.vertices[0], Vertex { x: -900_000, y: 900_000 });
    assert_eq!(border.vertices[1], Vertex { x: 900_000, y: 900_000 });
    assert_eq!(border.vertices[2], Vertex { x: 900_000, y: -900_000 });
    assert_eq!(border.vertices[3], Vertex { x: -900_000, y: -900_000 });
}

#[test]
fn end_to_end_two_segments() {
    let (center, lines, border) = generate(PADDING, 2);
    assert_eq!(center.vertices.len(), 3);
    assert_eq!(center.vertices[0], Vertex { x: -900_000, y: 0 });
    assert_eq!(center.vertices[1], Vertex { x: 0, y: 0 });
    assert_eq!(center.vertices[2], Vertex { x: 900_000, y: 0 });
    assert_eq!(lines.vertices.len(), 24);
    assert_eq!(border.vertices[0], Vertex { x: -900_000, y: 900_000 });
    assert_eq!(border.vertices[1], Vertex { x: 900_000, y: 900_000 });
    assert_eq!(border.vertices[2], Vertex { x: 900_000, y: -900_000 });
    assert_eq!(border.vertices[3], Vertex { x: -900_000, y: -900_000 });
}

#[test]
fn radiating_pattern_of_first_segment() {
    let (_, lines, _) = generate(PADDING, 2);
    // segment index 0 sits at the left end of the interior
    let x0 = -900_000;
    let expected = [
        Vertex { x: x0, y: 900_000 },        // top edge point
        Vertex { x: -900_000, y: 0 },        // left-center anchor
        Vertex { x: x0, y: -900_000 },       // bottom edge point
        Vertex { x: 900_000, y: 0 },         // right-center anchor
        Vertex { x: 900_000, y: 900_000 },   // top-right corner
        Vertex { x: x0, y: 0 },              // center point
        Vertex { x: -900_000, y: -900_000 }, // bottom-left corner
        Vertex { x: x0, y: 0 },              // center point
    ];
    for (j, want) in expected.iter().enumerate() {
        assert_eq!(lines.vertices[j], *want);
    }
}

#[test]
fn center_line_spacing_is_even() {
    let (center, _, _) = generate(PADDING, 100);
    for i in 0..=100i64 {
        assert_eq!(center.vertices[i as usize], Vertex { x: -900_000 + 18_000 * i, y: 0 });
    }
}

#[test]
fn map_range_exact_values() {
    assert_eq!(map_range((0, 100), (-900_000, 900_000), 0), -900_000);
    assert_eq!(map_range((0, 100), (-900_000, 900_000), 50), 0);
    assert_eq!(map_range((0, 100), (-900_000, 900_000), 100), 900_000);
    // a descending target range maps in reverse
    assert_eq!(map_range((0, 10), (900_000, -900_000), 10), -900_000);
    assert_eq!(map_range((0, 10), (900_000, -900_000), 5), 0);
}

#[test]
fn degenerate_geometry_is_graceful() {
    // zero segments: one center vertex at the left end of the interior
    let (center, lines, border) = generate(PADDING, 0);
    assert_eq!(center.vertices.len(), 1);
    assert_eq!(center.vertices[0], Vertex { x: -900_000, y: 0 });
    assert_eq!(lines.vertices.len(), 8);
    assert_eq!(border.vertices.len(), 4);
    // full padding: the interior collapses to a point
    let (center, _, border) = generate(S, 2);
    for v in center.vertices.iter() {
        assert_eq!(*v, Vertex { x: 0, y: 0 });
    }
    for v in border.vertices.iter() {
        assert_eq!(*v, Vertex { x: 0, y: 0 });
    }
}
