//! Annotations: named polygons and lines over the image.

use vstd::prelude::*;
use crate::geometry::{
    Point, dist_sq, inside_polygon, is_first_nearest, nearest_vertex, point_in_polygon,
    vertex_within_threshold,
};

verus! {

/// Whether an annotation is a closed polygon or an open line.
#[derive(Debug, Clone, Copy, PartialEq, Eq, Structural)]
pub enum AnnotationType {
    Polygon,
    Line,
}

/// A named polygon or line. Vertices are kept in insertion order; edges join
/// consecutive vertices, and a polygon also joins the last to the first.
#[derive(Debug, Clone, PartialEq)]
pub struct Annotation {
    pub name: String,
    pub annotation_type: AnnotationType,
    pub vertices: Vec<Point>,
}

/// The mathematical value of an annotation.
pub struct AnnotationView {
    pub name: Seq<char>,
    pub kind: AnnotationType,
    pub vertices: Seq<Point>,
}

impl View for Annotation {
    type V = AnnotationView;

    open spec fn view(&self) -> AnnotationView {
        AnnotationView { name: self.name@, kind: self.annotation_type, vertices: self.vertices@ }
    }
}

/// The value of a collection of annotations.
pub open spec fn annotations_view(v: Seq<Annotation>) -> Seq<AnnotationView> {
    v.map_values(|a: Annotation| a@)
}

/// An annotation of `kind` after appending each point of `points` in turn.
pub open spec fn with_vertices_added(a: AnnotationView, points: Seq<Point>) -> AnnotationView
    decreases points.len(),
{
    if points.len() == 0 {
        a
    } else {
        let before = with_vertices_added(a, points.drop_last());
        AnnotationView { vertices: before.vertices.push(points.last()), ..before }
    }
}

/// After any sequence of appends to a fresh annotation, the vertex count is
/// the number of appends and the kind (hence closedness) is unchanged.
pub proof fn lemma_vertex_count_after_appends(name: Seq<char>, kind: AnnotationType, points: Seq<
    Point,
>)
    ensures
        with_vertices_added(
            AnnotationView { name, kind, vertices: Seq::empty() },
            points,
        ).vertices.len() == points.len(),
        with_vertices_added(AnnotationView { name, kind, vertices: Seq::empty() }, points).kind
            == kind,
        with_vertices_added(
            AnnotationView { name, kind, vertices: Seq::empty() },
            points,
        ).vertices == points,
    decreases points.len(),
{
    if points.len() > 0 {
        lemma_vertex_count_after_appends(name, kind, points.drop_last());
        assert(points.drop_last().push(points.last()) =~= points);
    }
}

/// A click at `p` lands on the annotation: within `threshold` units of one
/// of its vertices, or inside it when it is a polygon.
pub open spec fn hits(a: AnnotationView, p: Point, threshold: u32) -> bool {
    ||| exists|j: int|
        0 <= j < a.vertices.len() && #[trigger] dist_sq(a.vertices[j], p) <= threshold * threshold
    ||| a.kind == AnnotationType::Polygon && inside_polygon(a.vertices, p)
}

/// A copy of `v` that shares nothing with it.
pub fn copy_points(v: &Vec<Point>) -> (r: Vec<Point>)
    ensures
        r@ == v@,
{
    let mut r: Vec<Point> = Vec::new();
    let mut i: usize = 0;
    while i < v.len()
        invariant
            i <= v@.len(),
            r@ == v@.subrange(0, i as int),
        decreases v@.len() - i,
    {
        r.push(v[i]);
        i += 1;
        assert(r@ =~= v@.subrange(0, i as int));
    }
    assert(r@ =~= v@);
    r
}

impl Annotation {
    /// An annotation with no vertices.
    pub fn new(name: String, annotation_type: AnnotationType) -> (r: Annotation)
        ensures
            r.name == name,
            r.annotation_type == annotation_type,
            r.vertices@.len() == 0,
    {
        Annotation { name, annotation_type, vertices: Vec::new() }
    }

    /// A deep copy of this annotation.
    pub fn duplicate(&self) -> (r: Annotation)
        ensures
            r@ == self@,
    {
        Annotation {
            name: self.name.clone(),
            annotation_type: self.annotation_type,
            vertices: copy_points(&self.vertices),
        }
    }

    /// Appends a vertex.
    pub fn add_vertex(&mut self, point: Point)
        ensures
            final(self)@ == (AnnotationView {
                vertices: old(self)@.vertices.push(point),
                ..old(self)@
            }),
            final(self)@ == with_vertices_added(old(self)@, seq![point]),
    {
        let ghost before = self@;
        self.vertices.push(point);
        proof {
            assert(seq![point].drop_last() =~= Seq::<Point>::empty());
            assert(with_vertices_added(before, Seq::<Point>::empty()) == before);
        }
    }

    /// Removes the vertex at `index`; returns false, changing nothing, when
    /// `index` is out of bounds.
    pub fn remove_vertex(&mut self, index: usize) -> (r: bool)
        ensures
            r == (index < old(self)@.vertices.len()),
            r ==> final(self)@ == (AnnotationView {
                vertices: old(self)@.vertices.remove(index as int),
                ..old(self)@
            }),
            !r ==> final(self)@ == old(self)@,
    {
        if index < self.vertices.len() {
            self.vertices.remove(index);
            true
        } else {
            false
        }
    }

    /// Index of the vertex closest to `point`, lowest index on a tie; `None`
    /// when there are no vertices.
    pub fn find_nearest_vertex(&self, point: &Point) -> (r: Option<usize>)
        ensures
            r is None <==> self@.vertices.len() == 0,
            r matches Some(i) ==> is_first_nearest(self@.vertices, *point, i as int),
    {
        nearest_vertex(&self.vertices, point)
    }

    /// Index of the vertex closest to `point` among those within `threshold`
    /// units of it, lowest index on a tie; `None` when none is that close.
    pub fn find_vertex_within_threshold(&self, point: &Point, threshold: u32) -> (r: Option<usize>)
        ensures
            r is None <==> forall|j: int|
                0 <= j < self@.vertices.len() ==> #[trigger] dist_sq(self@.vertices[j], *point)
                    > threshold * threshold,
            r matches Some(i) ==> is_first_nearest(self@.vertices, *point, i as int) && dist_sq(
                self@.vertices[i as int],
                *point,
            ) <= threshold * threshold,
    {
        vertex_within_threshold(&self.vertices, point, threshold)
    }

    /// Moves the vertex at `index` to `new_position`; returns false, changing
    /// nothing, when `index` is out of bounds.
    pub fn update_vertex(&mut self, index: usize, new_position: Point) -> (r: bool)
        ensures
            r == (index < old(self)@.vertices.len()),
            r ==> final(self)@ == (AnnotationView {
                vertices: old(self)@.vertices.update(index as int, new_position),
                ..old(self)@
            }),
            !r ==> final(self)@ == old(self)@,
    {
        if index < self.vertices.len() {
            self.vertices.set(index, new_position);
            true
        } else {
            false
        }
    }

    /// Whether a click at `point` lands on this annotation.
    pub fn is_hit(&self, point: &Point, threshold: u32) -> (r: bool)
        ensures
            r == hits(self@, *point, threshold),
    {
        if self.find_vertex_within_threshold(point, threshold).is_some() {
            return true;
        }
        self.is_closed() && point_in_polygon(&self.vertices, point)
    }

    /// True exactly for polygons, whatever the vertex count.
    pub fn is_closed(&self) -> (r: bool)
        ensures
            r == (self.annotation_type == AnnotationType::Polygon),
    {
        match self.annotation_type {
            AnnotationType::Polygon => true,
            AnnotationType::Line => false,
        }
    }

    /// Number of vertices.
    pub fn vertex_count(&self) -> (r: usize)
        ensures
            r == self@.vertices.len(),
    {
        self.vertices.len()
    }
}

} // verus!
