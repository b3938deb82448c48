use roids::annotation::{Annotation, AnnotationType};
use roids::geometry::Point;

#[test]
fn test_annotation_new() {
    let annotation = Annotation::new("region 1".to_string(), AnnotationType::Polygon);
    assert_eq!(annotation.name, "region 1");
    assert_eq!(annotation.annotation_type, AnnotationType::Polygon);
    assert_eq!(annotation.vertices.len(), 0);
    assert!(annotation.is_closed());
}

#[test]
fn test_annotation_add_vertex() {
    let mut annotation = Annotation::new("line 1".to_string(), AnnotationType::Line);
    annotation.add_vertex(Point::new(0, 0));
    annotation.add_vertex(Point::new(1_000_000, 1_000_000));

    assert_eq!(annotation.vertex_count(), 2);
    assert!(!annotation.is_closed());
}

#[test]
fn test_annotation_remove_vertex() {
    let mut annotation = Annotation::new("region 1".to_string(), AnnotationType::Polygon);
    annotation.add_vertex(Point::new(0, 0));
    annotation.add_vertex(Point::new(1_000_000, 0));
    annotation.add_vertex(Point::new(1_000_000, 1_000_000));

    assert!(annotation.remove_vertex(1));
    assert_eq!(annotation.vertex_count(), 2);
    assert_eq!(annotation.vertices[1], Point::new(1_000_000, 1_000_000));

    assert!(!annotation.remove_vertex(10));
}

#[test]
fn test_annotation_update_vertex() {
    let mut annotation = Annotation::new("region 1".to_string(), AnnotationType::Polygon);
    annotation.add_vertex(Point::new(0, 0));
    annotation.add_vertex(Point::new(1_000_000, 0));

    assert!(annotation.update_vertex(0, Point::new(500_000, 500_000)));
    assert_eq!(annotation.vertices[0], Point::new(500_000, 500_000));

    assert!(!annotation.update_vertex(10, Point::new(0, 0)));
}

#[test]
fn test_find_nearest_vertex() {
    let mut annotation = Annotation::new("region 1".to_string(), AnnotationType::Polygon);
    annotation.add_vertex(Point::new(0, 0));
    annotation.add_vertex(Point::new(1_000_000, 0));
    annotation.add_vertex(Point::new(1_000_000, 1_000_000));

    let search_point = Point::new(950_000, 50_000);
    let nearest = annotation.find_nearest_vertex(&search_point);
    assert_eq!(nearest, Some(1));

    let empty_annotation = Annotation::new("empty".to_string(), AnnotationType::Line);
    assert_eq!(empty_annotation.find_nearest_vertex(&search_point), None);
}

#[test]
fn test_find_vertex_within_threshold() {
    let mut annotation = Annotation::new("region 1".to_string(), AnnotationType::Polygon);
    annotation.add_vertex(Point::new(0, 0));
    annotation.add_vertex(Point::new(500_000, 0));
    annotation.add_vertex(Point::new(1_000_000, 0));

    let search_point = Point::new(520_000, 20_000);
    let found = annotation.find_vertex_within_threshold(&search_point, 50_000);
    assert_eq!(found, Some(1));

    let found_none = annotation.find_vertex_within_threshold(&search_point, 10_000);
    assert_eq!(found_none, None);
}

#[test]
fn vertex_count_follows_appends_and_closedness_follows_kind() {
    for kind in [AnnotationType::Polygon, AnnotationType::Line] {
        let mut a = Annotation::new("a".to_string(), kind);
        for n in 0..5u32 {
            assert_eq!(a.vertex_count(), n as usize);
            assert_eq!(a.is_closed(), kind == AnnotationType::Polygon);
            a.add_vertex(Point::new(n, n));
        }
        assert_eq!(a.vertex_count(), 5);
        assert_eq!(a.is_closed(), kind == AnnotationType::Polygon);
    }
}

#[test]
fn remove_vertex_keeps_order_of_the_rest() {
    let mut a = Annotation::new("a".to_string(), AnnotationType::Line);
    a.add_vertex(Point::new(1, 1));
    a.add_vertex(Point::new(2, 2));
    a.add_vertex(Point::new(3, 3));
    assert!(a.remove_vertex(0));
    assert_eq!(a.vertices, vec![Point::new(2, 2), Point::new(3, 3)]);
    assert!(!a.remove_vertex(2));
    assert_eq!(a.vertex_count(), 2);
}

#[test]
fn hit_test_by_vertex_and_by_interior() {
    let mut square = Annotation::new("s".to_string(), AnnotationType::Polygon);
    square.add_vertex(Point::new(100_000, 100_000));
    square.add_vertex(Point::new(500_000, 100_000));
    square.add_vertex(Point::new(500_000, 500_000));
    square.add_vertex(Point::new(100_000, 500_000));
    assert!(square.is_hit(&Point::new(300_000, 300_000), 1_000));
    assert!(square.is_hit(&Point::new(505_000, 95_000), 10_000));
    assert!(!square.is_hit(&Point::new(700_000, 300_000), 10_000));

    let mut line = square.duplicate();
    line.annotation_type = AnnotationType::Line;
    assert!(!line.is_hit(&Point::new(300_000, 300_000), 1_000));
    assert!(line.is_hit(&Point::new(100_000, 100_000), 0));
}

#[test]
fn duplicate_is_equal_and_independent() {
    let mut a = Annotation::new("region 3".to_string(), AnnotationType::Polygon);
    a.add_vertex(Point::new(1, 2));
    let mut b = a.duplicate();
    assert_eq!(a, b);
    b.add_vertex(Point::new(3, 4));
    assert_eq!(a.vertex_count(), 1);
}
