use roids::geometry::{
    denormalize_coordinates, nearest_vertex, normalize_coordinates, point_in_polygon,
    vertex_within_threshold, Point,
};

#[test]
fn test_point_new() {
    let point = Point::new(500_000, 750_000);
    assert_eq!(point.x, 500_000);
    assert_eq!(point.y, 750_000);
}

#[test]
fn test_point_distance() {
    let origin = Point::new(0, 0);
    let corner = Point::new(3_000_000, 4_000_000);

    assert_eq!(origin.distance(&corner), 5_000_000);
    assert_eq!(origin.distance_squared(&corner), 25_000_000_000_000);
}

#[test]
fn test_normalize_denormalize_roundtrip() {
    let width = 1920;
    let height = 1080;
    let pixel_x: u64 = 960_000_000;
    let pixel_y: u64 = 540_000_000;

    let normalized = normalize_coordinates(pixel_x, pixel_y, width, height);
    let (denorm_x, denorm_y) = denormalize_coordinates(&normalized, width, height);

    assert!(denorm_x.abs_diff(pixel_x) < 100);
    assert!(denorm_y.abs_diff(pixel_y) < 100);
}

#[test]
fn test_normalize_corners() {
    let width = 1920;
    let height = 1080;

    let tl = normalize_coordinates(0, 0, width, height);
    assert_eq!(tl.x, 0);
    assert_eq!(tl.y, 0);

    let br = normalize_coordinates(1_920_000_000, 1_080_000_000, width, height);
    assert_eq!(br.x, 1_000_000);
    assert_eq!(br.y, 1_000_000);
}

#[test]
fn distance_is_symmetric_and_zero_on_itself() {
    let a = Point::new(123_456, 654_321);
    let b = Point::new(999_999, 1);
    assert_eq!(a.distance(&b), b.distance(&a));
    assert_eq!(a.distance_squared(&b), b.distance_squared(&a));
    assert_eq!(a.distance_squared(&a), 0);
    assert_eq!(a.distance(&a), 0);
}

#[test]
fn distance_rounds_down() {
    let a = Point::new(0, 0);
    let b = Point::new(1, 1);
    assert_eq!(a.distance_squared(&b), 2);
    assert_eq!(a.distance(&b), 1);
    let far = Point::new(u32::MAX, u32::MAX);
    assert_eq!(a.distance_squared(&far), 2 * (u32::MAX as u128) * (u32::MAX as u128));
    assert_eq!(a.distance(&far), 6_074_000_998);
}

#[test]
fn nearest_vertex_on_empty_and_example() {
    let query = Point::new(950_000, 50_000);
    assert_eq!(nearest_vertex(&vec![], &query), None);
    let pts = vec![
        Point::new(0, 0),
        Point::new(1_000_000, 0),
        Point::new(1_000_000, 1_000_000),
    ];
    assert_eq!(nearest_vertex(&pts, &query), Some(1));
}

#[test]
fn nearest_vertex_tie_goes_to_lowest_index() {
    let pts = vec![Point::new(10, 0), Point::new(0, 10), Point::new(10, 0)];
    assert_eq!(nearest_vertex(&pts, &Point::new(0, 0)), Some(0));
    let pts = vec![Point::new(50, 50), Point::new(10, 0), Point::new(0, 10)];
    assert_eq!(nearest_vertex(&pts, &Point::new(0, 0)), Some(1));
}

#[test]
fn within_threshold_example_and_boundary() {
    let pts = vec![Point::new(0, 0), Point::new(500_000, 0), Point::new(1_000_000, 0)];
    let q = Point::new(520_000, 20_000);
    assert_eq!(vertex_within_threshold(&pts, &q, 50_000), Some(1));
    assert_eq!(vertex_within_threshold(&pts, &q, 10_000), None);
    // distance exactly 5 (3-4-5): a threshold of 5 includes it, 4 does not
    let pts = vec![Point::new(3, 4)];
    assert_eq!(vertex_within_threshold(&pts, &Point::new(0, 0), 5), Some(0));
    assert_eq!(vertex_within_threshold(&pts, &Point::new(0, 0), 4), None);
    assert_eq!(vertex_within_threshold(&vec![], &Point::new(0, 0), 5), None);
}

#[test]
fn point_in_polygon_even_odd() {
    let tri = vec![Point::new(0, 0), Point::new(100, 0), Point::new(0, 100)];
    assert!(point_in_polygon(&tri, &Point::new(10, 10)));
    assert!(!point_in_polygon(&tri, &Point::new(80, 80)));
    assert!(!point_in_polygon(&tri, &Point::new(200, 10)));
    assert!(!point_in_polygon(&vec![], &Point::new(0, 0)));
}

#[test]
fn normalize_rounds_down() {
    let p = normalize_coordinates(1_000, 2_999, 3, 3);
    assert_eq!(p, Point::new(333, 999));
    assert_eq!(denormalize_coordinates(&Point::new(7, 9), 10, 100), (70, 900));
}
