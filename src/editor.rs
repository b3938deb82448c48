//! The interaction controller: turns pointer and key events into edits of
//! the project, through the undo history.
//!
//! Transient state (the selection, the vertex being dragged) refers to
//! annotations by index only, and every index is checked against the current
//! collection right before it is used: a stale index is ignored.

use vstd::prelude::*;
use crate::annotation::{Annotation, AnnotationType, AnnotationView, annotations_view, hits};
use crate::geometry::{Point, dist_sq, is_first_nearest};
use crate::history::{
    History, DEFAULT_MAX_SIZE, empty_history, history_wf, push_spec, redo_spec, undo_spec,
};
use crate::project::{ProjectData, copy_annotations};
use crate::text::string_from_chars;

verus! {

/// The active drawing tool.
#[derive(Debug, Clone, Copy, PartialEq, Eq, Structural)]
pub enum Tool {
    Select,
    Polygon,
    Line,
}

/// The decimal digit `d` (below ten) as a character.
pub open spec fn digit_char(d: nat) -> char {
    if d == 0 {
        '0'
    } else if d == 1 {
        '1'
    } else if d == 2 {
        '2'
    } else if d == 3 {
        '3'
    } else if d == 4 {
        '4'
    } else if d == 5 {
        '5'
    } else if d == 6 {
        '6'
    } else if d == 7 {
        '7'
    } else if d == 8 {
        '8'
    } else {
        '9'
    }
}

/// The decimal digits of `n`, without leading zeros.
pub open spec fn decimal(n: nat) -> Seq<char>
    decreases n,
{
    if n < 10 {
        seq![digit_char(n)]
    } else {
        decimal(n / 10).push(digit_char(n % 10))
    }
}

/// The default name of the annotation drawn after `counter` committed ones:
/// `region N` for a polygon, `line N` for a line, with `N = counter + 1`.
pub open spec fn default_name(kind: AnnotationType, counter: nat) -> Seq<char> {
    match kind {
        AnnotationType::Polygon => seq!['r', 'e', 'g', 'i', 'o', 'n', ' '] + decimal(counter + 1),
        AnnotationType::Line => seq!['l', 'i', 'n', 'e', ' '] + decimal(counter + 1),
    }
}

/// The kind of annotation a tool draws, if it draws one.
pub open spec fn tool_kind(tool: Tool) -> Option<AnnotationType> {
    match tool {
        Tool::Select => None,
        Tool::Polygon => Some(AnnotationType::Polygon),
        Tool::Line => Some(AnnotationType::Line),
    }
}

fn digit(d: u64) -> (r: char)
    requires
        d < 10,
    ensures
        r == digit_char(d as nat),
{
    if d == 0 {
        '0'
    } else if d == 1 {
        '1'
    } else if d == 2 {
        '2'
    } else if d == 3 {
        '3'
    } else if d == 4 {
        '4'
    } else if d == 5 {
        '5'
    } else if d == 6 {
        '6'
    } else if d == 7 {
        '7'
    } else if d == 8 {
        '8'
    } else {
        '9'
    }
}

fn push_decimal(out: &mut Vec<char>, n: u64)
    ensures
        final(out)@ == old(out)@ + decimal(n as nat),
    decreases n,
{
    if n >= 10 {
        push_decimal(out, n / 10);
    }
    out.push(digit(n % 10));
    assert(out@ =~= old(out)@ + decimal(n as nat));
}

/// The default name for a new annotation of `kind` after `counter` commits.
pub fn default_annotation_name(kind: AnnotationType, counter: u64) -> (r: String)
    requires
        counter < u64::MAX,
    ensures
        r@ == default_name(kind, counter as nat),
{
    let mut chars: Vec<char> = match kind {
        AnnotationType::Polygon => vec!['r', 'e', 'g', 'i', 'o', 'n', ' '],
        AnnotationType::Line => vec!['l', 'i', 'n', 'e', ' '],
    };
    push_decimal(&mut chars, counter + 1);
    string_from_chars(&chars)
}

/// What a finished background load hands to the controller.
pub enum Loaded {
    /// An image was decoded: start a fresh project for it.
    FreshImage { media_file: String, width: u32, height: u32 },
    /// An annotation file was read: install its project.
    Imported(ProjectData),
    /// Nothing could be loaded; the current state stays as it is.
    Failed,
}

/// The controller state.
pub struct Editor {
    pub current_tool: Tool,
    pub project: Option<ProjectData>,
    pub selected_annotation: Option<usize>,
    pub in_progress_annotation: Option<Annotation>,
    /// `(annotation index, vertex index)` of the vertex being dragged.
    pub dragging_vertex: Option<(usize, usize)>,
    /// Number of annotations committed so far; names are never reused.
    pub annotation_counter: u64,
    pub history: History<Vec<Annotation>>,
    /// Ticket of the load still outstanding, if any.
    pub pending_load: Option<u64>,
    /// Ticket the next load will get.
    pub next_load_ticket: u64,
}

/// The annotations of the project, or none when there is no project.
pub open spec fn project_annotations(p: Option<ProjectData>) -> Seq<AnnotationView> {
    match p {
        Some(p) => annotations_view(p.annotations@),
        None => Seq::empty(),
    }
}

/// `i` is the topmost annotation (the last in drawing order) that a click at
/// `p` lands on.
pub open spec fn is_topmost_hit(anns: Seq<AnnotationView>, p: Point, threshold: u32, i: int) -> bool {
    &&& 0 <= i < anns.len()
    &&& hits(anns[i], p, threshold)
    &&& forall|k: int| i < k < anns.len() ==> !hits(#[trigger] anns[k], p, threshold)
}

/// Index of the topmost annotation that a click at `p` lands on.
pub fn annotation_at(annotations: &Vec<Annotation>, p: &Point, threshold: u32) -> (r: Option<usize>)
    ensures
        r is None <==> forall|k: int|
            0 <= k < annotations@.len() ==> !hits(
                #[trigger] annotations_view(annotations@)[k],
                *p,
                threshold,
            ),
        r matches Some(i) ==> is_topmost_hit(annotations_view(annotations@), *p, threshold, i as int),
{
    let ghost v = annotations_view(annotations@);
    let mut i = annotations.len();
    while i > 0
        invariant
            i <= annotations@.len(),
            v == annotations_view(annotations@),
            forall|k: int| i <= k < annotations@.len() ==> !hits(#[trigger] v[k], *p, threshold),
        decreases i,
    {
        if annotations[i - 1].is_hit(p, threshold) {
            assert(v[i - 1] == annotations@[i - 1]@);
            return Some(i - 1);
        }
        i -= 1;
    }
    None
}

/// The state a successful load leaves behind, apart from the project and
/// the counter: nothing selected, drawn or dragged, no load outstanding, and
/// an empty history with the same bound.
pub open spec fn installed(after: Editor, before: Editor) -> bool {
    &&& after.current_tool == before.current_tool
    &&& after.selected_annotation is None
    &&& after.in_progress_annotation is None
    &&& after.dragging_vertex is None
    &&& after.pending_load is None
    &&& after.next_load_ticket == before.next_load_ticket
    &&& after.history@ == empty_history::<Vec<Annotation>>(before.history@.max_size)
}

/// The history of `after` records the annotations of `before`: its top
/// entry is a copy of them, pushed onto the history `before` had.
pub open spec fn recorded(after: Editor, before: Editor) -> bool {
    let snapshot = after.history@.undo.last();
    &&& after.history@ == push_spec(before.history@, snapshot)
    &&& annotations_view(snapshot@) == project_annotations(before.project)
}

/// The annotation being drawn in `e` gets committed when it is finished.
pub open spec fn commits(e: Editor) -> bool {
    &&& e.in_progress_annotation is Some
    &&& e.in_progress_annotation.unwrap()@.vertices.len() >= 2
    &&& e.project is Some
}

/// `after` is `before` with the annotation being drawn finished: committed
/// behind a recorded snapshot when `commits(before)`, dropped otherwise.
pub open spec fn finished(after: Editor, before: Editor) -> bool {
    if commits(before) {
        &&& recorded(after, before)
        &&& project_annotations(after.project) == project_annotations(before.project).push(
            before.in_progress_annotation.unwrap()@,
        )
        &&& after.annotation_counter == before.annotation_counter + 1
        &&& after.same_project_header(&before)
        &&& after == Editor {
            in_progress_annotation: None,
            project: after.project,
            annotation_counter: after.annotation_counter,
            history: after.history,
            ..before
        }
    } else {
        after == Editor { in_progress_annotation: None, ..before }
    }
}

/// `after` is `before` stepped back by one undo: the annotations are the top
/// undo entry, a copy of the previous ones went onto the redo stack, and the
/// selection is cleared.
pub open spec fn undone(after: Editor, before: Editor) -> bool {
    let current = after.history@.redo.last();
    &&& before.project is Some
    &&& before.history@.undo.len() > 0
    &&& after.project is Some
    &&& after.project.unwrap().annotations == before.history@.undo.last()
    &&& after.history@ == undo_spec(before.history@, current).1
    &&& annotations_view(current@) == project_annotations(before.project)
    &&& after.same_project_header(&before)
    &&& after == Editor {
        project: after.project,
        history: after.history,
        selected_annotation: None,
        ..before
    }
}

/// `after` is `before` stepped forward by one redo.
pub open spec fn redone(after: Editor, before: Editor) -> bool {
    let current = after.history@.undo.last();
    &&& before.project is Some
    &&& before.history@.redo.len() > 0
    &&& after.project is Some
    &&& after.project.unwrap().annotations == before.history@.redo.last()
    &&& after.history@ == redo_spec(before.history@, current).1
    &&& annotations_view(current@) == project_annotations(before.project)
    &&& after.same_project_header(&before)
    &&& after == Editor {
        project: after.project,
        history: after.history,
        selected_annotation: None,
        ..before
    }
}

/// An undo taken while the history still has the entry that an action
/// recorded (a commit, the start of a drag, a deletion; later drag moves do
/// not touch the history) brings back the annotations from before that
/// action.
pub proof fn lemma_undo_restores_recorded(before: Editor, recorded_state: Editor, after: Editor)
    requires
        before.wf(),
        recorded(recorded_state, before),
        undone(after, recorded_state),
    ensures
        project_annotations(after.project) == project_annotations(before.project),
{
}

impl Editor {
    /// The history is within its bound and keeps at least one undo step.
    pub open spec fn wf(&self) -> bool {
        history_wf(self.history@) && self.history@.max_size >= 1
    }

    /// The projects of `self` and `other` agree in everything but their annotations.
    pub open spec fn same_project_header(&self, other: &Editor) -> bool {
        match (self.project, other.project) {
            (Some(a), Some(b)) => a.media_file == b.media_file && a.frame_width == b.frame_width
                && a.frame_height == b.frame_height,
            (None, None) => true,
            _ => false,
        }
    }

    /// A controller with the select tool, no project, nothing drawn and an
    /// empty history of `DEFAULT_MAX_SIZE` steps.
    pub fn new() -> (r: Editor)
        ensures
            r.wf(),
            r.current_tool == Tool::Select,
            r.project is None,
            r.selected_annotation is None,
            r.in_progress_annotation is None,
            r.dragging_vertex is None,
            r.annotation_counter == 0,
            r.history@ == empty_history::<Vec<Annotation>>(DEFAULT_MAX_SIZE as nat),
            r.pending_load is None,
            r.next_load_ticket == 0,
    {
        Editor {
            current_tool: Tool::Select,
            project: None,
            selected_annotation: None,
            in_progress_annotation: None,
            dragging_vertex: None,
            annotation_counter: 0,
            history: History::with_default_size(),
            pending_load: None,
            next_load_ticket: 0,
        }
    }

    /// Selects the tool used by later clicks.
    pub fn set_tool(&mut self, tool: Tool)
        ensures
            *final(self) == (Editor { current_tool: tool, ..*old(self) }),
    {
        self.current_tool = tool;
    }

    /// Starts an empty annotation of the current tool's kind, named after the
    /// counter. Does nothing with the select tool.
    pub fn start_annotation(&mut self)
        requires
            old(self).annotation_counter < u64::MAX,
        ensures
            match tool_kind(old(self).current_tool) {
                None => *final(self) == *old(self),
                Some(kind) => {
                    &&& final(self).in_progress_annotation matches Some(a) && a@ == (AnnotationView {
                        name: default_name(kind, old(self).annotation_counter as nat),
                        kind,
                        vertices: Seq::empty(),
                    })
                    &&& *final(self) == (Editor {
                        in_progress_annotation: final(self).in_progress_annotation,
                        ..*old(self)
                    })
                },
            },
    {
        let kind = match self.current_tool {
            Tool::Polygon => AnnotationType::Polygon,
            Tool::Line => AnnotationType::Line,
            Tool::Select => {
                return ;
            },
        };
        let name = default_annotation_name(kind, self.annotation_counter);
        let a = Annotation::new(name, kind);
        assert(a.vertices@ =~= Seq::<Point>::empty());
        self.in_progress_annotation = Some(a);
    }

    /// Ends the annotation being drawn. It is committed to the project only
    /// when it has at least two vertices and a project is open: the history
    /// first records the collection as it was, then the annotation is
    /// appended and the counter advances. Otherwise it is dropped, and
    /// nothing else changes.
    pub fn finish_annotation(&mut self)
        requires
            old(self).wf(),
            old(self).annotation_counter < u64::MAX,
        ensures
            final(self).wf(),
            finished(*final(self), *old(self)),
    {
        let taken = self.in_progress_annotation.take();
        match taken {
            Some(a) => {
                if a.vertex_count() >= 2 {
                    match self.project.as_mut() {
                        Some(project) => {
                            let snapshot = copy_annotations(&project.annotations);
                            self.history.push(snapshot);
                            let ghost before = project.annotations@;
                            project.annotations.push(a);
                            assert(annotations_view(project.annotations@) =~= annotations_view(
                                before,
                            ).push(a@));
                            self.annotation_counter = self.annotation_counter + 1;
                        },
                        None => {},
                    }
                }
            },
            None => {},
        }
    }

    /// A press of the pointer at `p` on the canvas. Ignored while a load is
    /// outstanding or when no project is open. With the select tool it
    /// selects the topmost annotation within reach (or clears the selection);
    /// with a drawing tool it appends `p` to the annotation being drawn,
    /// starting one first when there is none.
    pub fn click(&mut self, p: Point, threshold: u32)
        requires
            old(self).annotation_counter < u64::MAX,
        ensures
            old(self).pending_load is Some || old(self).project is None ==> *final(self) == *old(
                self,
            ),
            old(self).pending_load is None && old(self).project is Some && old(self).current_tool
                == Tool::Select ==> {
                &&& *final(self) == (Editor {
                    selected_annotation: final(self).selected_annotation,
                    ..*old(self)
                })
                &&& final(self).selected_annotation is None <==> forall|k: int|
                    0 <= k < project_annotations(old(self).project).len() ==> !hits(
                        #[trigger] project_annotations(old(self).project)[k],
                        p,
                        threshold,
                    )
                &&& final(self).selected_annotation matches Some(i) ==> is_topmost_hit(
                    project_annotations(old(self).project),
                    p,
                    threshold,
                    i as int,
                )
            },
            old(self).pending_load is None && old(self).project is Some && old(self).current_tool
                != Tool::Select ==> {
                let kind = tool_kind(old(self).current_tool).unwrap();
                &&& *final(self) == (Editor {
                    in_progress_annotation: final(self).in_progress_annotation,
                    ..*old(self)
                })
                &&& final(self).in_progress_annotation matches Some(a) && a@ == match old(
                    self,
                ).in_progress_annotation {
                    Some(b) => AnnotationView { vertices: b@.vertices.push(p), ..b@ },
                    None => AnnotationView {
                        name: default_name(kind, old(self).annotation_counter as nat),
                        kind,
                        vertices: seq![p],
                    },
                }
            },
    {
        if self.pending_load.is_some() {
            return ;
        }
        match self.current_tool {
            Tool::Select => {
                let selected = match &self.project {
                    Some(project) => annotation_at(&project.annotations, &p, threshold),
                    None => {
                        return ;
                    },
                };
                let ghost anns = project_annotations(self.project);
                assert(anns == annotations_view(self.project.unwrap().annotations@));
                self.selected_annotation = selected;
            },
            Tool::Polygon | Tool::Line => {
                if self.project.is_none() {
                    return ;
                }
                let kind = if self.current_tool == Tool::Polygon {
                    AnnotationType::Polygon
                } else {
                    AnnotationType::Line
                };
                let mut a = match self.in_progress_annotation.take() {
                    Some(a) => a,
                    None => {
                        let name = default_annotation_name(kind, self.annotation_counter);
                        Annotation::new(name, kind)
                    },
                };
                let ghost before = a@;
                a.add_vertex(p);
                proof {
                    if before.vertices.len() == 0 {
                        assert(before.vertices.push(p) =~= seq![p]);
                    }
                }
                self.in_progress_annotation = Some(a);
            },
        }
    }

    /// A double click: finishes the polygon being drawn with the polygon tool.
    pub fn double_click(&mut self)
        requires
            old(self).wf(),
            old(self).annotation_counter < u64::MAX,
        ensures
            final(self).wf(),
            old(self).current_tool == Tool::Polygon ==> finished(*final(self), *old(self)),
            old(self).current_tool != Tool::Polygon ==> *final(self) == *old(self),
    {
        if self.current_tool == Tool::Polygon {
            self.finish_annotation();
        }
    }

    /// The escape key: finishes the line being drawn with the line tool, and
    /// otherwise cancels whatever is being drawn.
    pub fn escape(&mut self)
        requires
            old(self).wf(),
            old(self).annotation_counter < u64::MAX,
        ensures
            final(self).wf(),
            old(self).current_tool == Tool::Line && old(self).in_progress_annotation is Some
                ==> finished(*final(self), *old(self)),
            !(old(self).current_tool == Tool::Line && old(self).in_progress_annotation is Some)
                ==> *final(self) == (Editor { in_progress_annotation: None, ..*old(self) }),
    {
        if self.current_tool == Tool::Line && self.in_progress_annotation.is_some() {
            self.finish_annotation();
        } else {
            self.cancel_annotation();
        }
    }

    /// A press of the pointer at `p` that may start dragging a vertex of the
    /// selected annotation: the nearest of its vertices within `threshold`
    /// units. On success the history records the collection once, for the
    /// whole drag, and the vertex becomes the drag target.
    pub fn begin_drag(&mut self, p: Point, threshold: u32) -> (r: bool)
        requires
            old(self).wf(),
        ensures
            final(self).wf(),
            r == (old(self).pending_load is None && old(self).project is Some
                && old(self).selected_annotation is Some && ({
                let i = old(self).selected_annotation.unwrap() as int;
                let anns = project_annotations(old(self).project);
                i < anns.len() && exists|j: int|
                    0 <= j < anns[i].vertices.len() && #[trigger] dist_sq(anns[i].vertices[j], p)
                        <= threshold * threshold
            })),
            !r ==> *final(self) == *old(self),
            r ==> {
                let i = old(self).selected_annotation.unwrap();
                let anns = project_annotations(old(self).project);
                &&& final(self).dragging_vertex matches Some(d) && d.0 == i && is_first_nearest(
                    anns[i as int].vertices,
                    p,
                    d.1 as int,
                ) && dist_sq(anns[i as int].vertices[d.1 as int], p) <= threshold * threshold
                &&& recorded(*final(self), *old(self))
                &&& *final(self) == (Editor {
                    dragging_vertex: final(self).dragging_vertex,
                    history: final(self).history,
                    ..*old(self)
                })
            },
    {
        if self.pending_load.is_some() {
            return false;
        }
        let i = match self.selected_annotation {
            Some(i) => i,
            None => {
                return false;
            },
        };
        let found = match &self.project {
            Some(project) => {
                if i < project.annotations.len() {
                    assert(project.annotations@[i as int]@ == project_annotations(
                        self.project,
                    )[i as int]);
                    project.annotations[i].find_vertex_within_threshold(&p, threshold)
                } else {
                    None
                }
            },
            None => None,
        };
        match found {
            Some(j) => {
                let snapshot = match &self.project {
                    Some(project) => copy_annotations(&project.annotations),
                    None => Vec::new(),
                };
                self.history.push(snapshot);
                self.dragging_vertex = Some((i, j));
                true
            },
            None => false,
        }
    }

    /// Moves the dragged vertex to `p`. Does nothing when no drag is under
    /// way or when its indices no longer fit the collection.
    pub fn drag_to(&mut self, p: Point)
        ensures
            ({
                let anns = project_annotations(old(self).project);
                let d = old(self).dragging_vertex.unwrap();
                let ok = old(self).dragging_vertex is Some && old(self).project is Some && d.0
                    < anns.len() && d.1 < anns[d.0 as int].vertices.len();
                if ok {
                    let (i, j) = old(self).dragging_vertex.unwrap();
                    &&& project_annotations(final(self).project) == anns.update(
                        i as int,
                        AnnotationView {
                            vertices: anns[i as int].vertices.update(j as int, p),
                            ..anns[i as int]
                        },
                    )
                    &&& final(self).same_project_header(&*old(self))
                    &&& *final(self) == (Editor { project: final(self).project, ..*old(self) })
                } else {
                    *final(self) == *old(self)
                }
            }),
    {
        let (i, j) = match self.dragging_vertex {
            Some(d) => d,
            None => {
                return ;
            },
        };
        let mut project = match self.project.take() {
            Some(project) => project,
            None => {
                return ;
            },
        };
        let ghost before = project;
        if i < project.annotations.len() {
            let mut a = project.annotations[i].duplicate();
            if a.update_vertex(j, p) {
                project.annotations.set(i, a);
                assert(annotations_view(project.annotations@) =~= annotations_view(
                    before.annotations@,
                ).update(i as int, a@));
            }
        }
        self.project = Some(project);
    }

    /// Ends the drag, if any.
    pub fn end_drag(&mut self)
        ensures
            *final(self) == (Editor { dragging_vertex: None, ..*old(self) }),
    {
        self.dragging_vertex = None;
    }

    /// Deletes the selected annotation, unless text is being edited
    /// elsewhere (`text_focus`) or the selection no longer fits the
    /// collection. The history first records the collection as it is, so an
    /// undo brings the annotation back exactly as it stood at deletion, with
    /// any completed drag applied. Clears the selection and any drag.
    pub fn delete_selected(&mut self, text_focus: bool) -> (r: bool)
        requires
            old(self).wf(),
        ensures
            final(self).wf(),
            r == (!text_focus && old(self).project is Some && old(self).selected_annotation is Some
                && old(self).selected_annotation.unwrap() < project_annotations(
                old(self).project,
            ).len()),
            !r ==> *final(self) == *old(self),
            r ==> {
                let i = old(self).selected_annotation.unwrap();
                &&& recorded(*final(self), *old(self))
                &&& project_annotations(final(self).project) == project_annotations(
                    old(self).project,
                ).remove(i as int)
                &&& final(self).same_project_header(&*old(self))
                &&& *final(self) == (Editor {
                    project: final(self).project,
                    history: final(self).history,
                    selected_annotation: None,
                    dragging_vertex: None,
                    ..*old(self)
                })
            },
    {
        if text_focus {
            return false;
        }
        let i = match self.selected_annotation {
            Some(i) => i,
            None => {
                return false;
            },
        };
        let mut project = match self.project.take() {
            Some(project) => project,
            None => {
                return false;
            },
        };
        if i >= project.annotations.len() {
            self.project = Some(project);
            return false;
        }
        let snapshot = copy_annotations(&project.annotations);
        self.history.push(snapshot);
        let ghost before = project.annotations@;
        project.annotations.remove(i);
        assert(annotations_view(project.annotations@) =~= annotations_view(before).remove(
            i as int,
        ));
        self.project = Some(project);
        self.selected_annotation = None;
        self.dragging_vertex = None;
        true
    }

    /// Steps the annotations back to the state before the last recorded
    /// action, keeping the current ones for redo, and clears the selection.
    /// Returns false, changing nothing, with no project or nothing to undo.
    pub fn undo(&mut self) -> (r: bool)
        requires
            old(self).wf(),
        ensures
            final(self).wf(),
            r == (old(self).project is Some && old(self).history@.undo.len() > 0),
            !r ==> *final(self) == *old(self),
            r ==> undone(*final(self), *old(self)),
    {
        if !self.history.can_undo() {
            return false;
        }
        let mut project = match self.project.take() {
            Some(project) => project,
            None => {
                return false;
            },
        };
        let current = copy_annotations(&project.annotations);
        match self.history.undo(current) {
            Some(previous) => {
                project.annotations = previous;
                self.project = Some(project);
                self.selected_annotation = None;
                true
            },
            None => {
                self.project = Some(project);
                false
            },
        }
    }

    /// Steps forward to the state the last undo left, keeping the current
    /// annotations for undo, and clears the selection. Returns false,
    /// changing nothing, with no project or nothing to redo.
    pub fn redo(&mut self) -> (r: bool)
        requires
            old(self).wf(),
        ensures
            final(self).wf(),
            r == (old(self).project is Some && old(self).history@.redo.len() > 0),
            !r ==> *final(self) == *old(self),
            r ==> redone(*final(self), *old(self)),
    {
        if !self.history.can_redo() {
            return false;
        }
        let mut project = match self.project.take() {
            Some(project) => project,
            None => {
                return false;
            },
        };
        let current = copy_annotations(&project.annotations);
        match self.history.redo(current) {
            Some(next) => {
                project.annotations = next;
                self.project = Some(project);
                self.selected_annotation = None;
                true
            },
            None => {
                self.project = Some(project);
                false
            },
        }
    }

    /// Registers a new background load and returns its ticket. A load still
    /// outstanding is superseded: its result will be refused.
    pub fn begin_load(&mut self) -> (r: u64)
        requires
            old(self).next_load_ticket < u64::MAX,
        ensures
            r == old(self).next_load_ticket,
            *final(self) == (Editor {
                pending_load: Some(r),
                next_load_ticket: (r + 1) as u64,
                ..*old(self)
            }),
    {
        let ticket = self.next_load_ticket;
        self.pending_load = Some(ticket);
        self.next_load_ticket = ticket + 1;
        ticket
    }

    /// True while a load is outstanding; the canvas ignores clicks meanwhile.
    pub fn is_loading(&self) -> (r: bool)
        ensures
            r == self.pending_load is Some,
    {
        self.pending_load.is_some()
    }

    /// Delivers the result of the load with `ticket`. A result for any other
    /// ticket than the outstanding one is stale: it is refused and nothing
    /// changes. A failed load ends the wait and leaves the rest as it was. A
    /// loaded image or file replaces the project wholesale and resets the
    /// transient state and the history; an imported project also sets the
    /// counter to its number of annotations.
    pub fn complete_load(&mut self, ticket: u64, loaded: Loaded) -> (r: bool)
        requires
            old(self).wf(),
        ensures
            final(self).wf(),
            r == (old(self).pending_load == Some(ticket)),
            !r ==> *final(self) == *old(self),
            r ==> match loaded {
                Loaded::Failed => *final(self) == (Editor { pending_load: None, ..*old(self) }),
                Loaded::FreshImage { media_file, width, height } => {
                    &&& installed(*final(self), *old(self))
                    &&& final(self).project matches Some(p) && p.media_file == media_file
                        && p.frame_width == width && p.frame_height == height
                        && p.annotations@.len() == 0
                    &&& final(self).annotation_counter == old(self).annotation_counter
                },
                Loaded::Imported(project) => {
                    &&& installed(*final(self), *old(self))
                    &&& final(self).project == Some(project)
                    &&& final(self).annotation_counter == project.annotations@.len()
                },
            },
    {
        match self.pending_load {
            Some(t) => {
                if t != ticket {
                    return false;
                }
            },
            None => {
                return false;
            },
        }
        self.pending_load = None;
        let project = match loaded {
            Loaded::Failed => {
                return true;
            },
            Loaded::FreshImage { media_file, width, height } => {
                ProjectData::new(media_file, width, height)
            },
            Loaded::Imported(project) => {
                self.annotation_counter = project.annotations.len() as u64;
                project
            },
        };
        self.project = Some(project);
        self.selected_annotation = None;
        self.in_progress_annotation = None;
        self.dragging_vertex = None;
        self.history = History::new(self.history.max_size());
        true
    }

    /// Drops the annotation being drawn; the history and the counter stay.
    pub fn cancel_annotation(&mut self)
        ensures
            *final(self) == (Editor { in_progress_annotation: None, ..*old(self) }),
    {
        self.in_progress_annotation = None;
    }
}

} // verus!
