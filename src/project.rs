//! A project: the image it annotates and its annotations.

use vstd::prelude::*;
use crate::annotation::{Annotation, AnnotationView, annotations_view};

verus! {

/// The image a project refers to, its size, and its annotations in order.
#[derive(Debug, Clone, PartialEq)]
pub struct ProjectData {
    pub media_file: String,
    pub frame_width: u32,
    pub frame_height: u32,
    pub annotations: Vec<Annotation>,
}

impl ProjectData {
    /// A project for the given image, with no annotations.
    pub fn new(media_file: String, frame_width: u32, frame_height: u32) -> (r: ProjectData)
        ensures
            r.media_file == media_file,
            r.frame_width == frame_width,
            r.frame_height == frame_height,
            r.annotations@.len() == 0,
    {
        ProjectData { media_file, frame_width, frame_height, annotations: Vec::new() }
    }
}

/// A deep copy of a collection of annotations.
pub fn copy_annotations(v: &Vec<Annotation>) -> (r: Vec<Annotation>)
    ensures
        annotations_view(r@) == annotations_view(v@),
{
    let mut r: Vec<Annotation> = Vec::new();
    let mut i: usize = 0;
    while i < v.len()
        invariant
            i <= v@.len(),
            r@.len() == i,
            forall|k: int| 0 <= k < i ==> (#[trigger] r@[k])@ == v@[k]@,
        decreases v@.len() - i,
    {
        let a = v[i].duplicate();
        r.push(a);
        i += 1;
    }
    assert(annotations_view(r@) =~= annotations_view(v@));
    r
}

} // verus!
