use circle_window::geometry::{compute_layout, Ellipse};

#[test]
fn layout_wide_client_area() {
    let e = compute_layout(800, 600);
    assert_eq!(e, Ellipse { center_x: 400, center_y: 300, radius: 300 });
}

#[test]
fn layout_tall_client_area() {
    let e = compute_layout(300, 900);
    assert_eq!(e, Ellipse { center_x: 150, center_y: 450, radius: 150 });
}

#[test]
fn layout_square_client_area() {
    let e = compute_layout(640, 640);
    assert_eq!(e, Ellipse { center_x: 320, center_y: 320, radius: 320 });
}

#[test]
fn layout_degrades_to_a_point() {
    assert_eq!(compute_layout(0, 0), Ellipse { center_x: 0, center_y: 0, radius: 0 });
    assert_eq!(compute_layout(500, 0), Ellipse { center_x: 250, center_y: 0, radius: 0 });
    assert_eq!(compute_layout(0, 500), Ellipse { center_x: 0, center_y: 250, radius: 0 });
}

#[test]
fn layout_odd_dimensions_round_down() {
    let e = compute_layout(5, 3);
    assert_eq!(e, Ellipse { center_x: 2, center_y: 1, radius: 1 });
}

#[test]
fn layout_largest_client_area() {
    let e = compute_layout(u32::MAX, u32::MAX);
    assert_eq!(e.center_x, u32::MAX / 2);
    assert_eq!(e.center_y, u32::MAX / 2);
    assert_eq!(e.radius, u32::MAX / 2);
}
