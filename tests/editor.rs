use roids::annotation::{Annotation, AnnotationType};
use roids::editor::{default_annotation_name, Editor, Loaded, Tool};
use roids::geometry::Point;
use roids::media::LoadedImage;
use roids::project::ProjectData;

const REACH: u32 = 20_000;

fn editor_with_image() -> Editor {
    let mut e = Editor::new();
    let ticket = e.begin_load();
    assert!(e.is_loading());
    let accepted = e.complete_load(
        ticket,
        Loaded::FreshImage { media_file: "img.png".to_string(), width: 640, height: 480 },
    );
    assert!(accepted);
    assert!(!e.is_loading());
    e
}

fn count(e: &Editor) -> usize {
    e.project.as_ref().map(|p| p.annotations.len()).unwrap_or(0)
}

#[test]
fn new_editor_state() {
    let e = Editor::new();
    assert_eq!(e.current_tool, Tool::Select);
    assert!(e.project.is_none());
    assert_eq!(e.annotation_counter, 0);
    assert!(!e.history.can_undo());
}

#[test]
fn default_names_use_counter_plus_one() {
    assert_eq!(default_annotation_name(AnnotationType::Polygon, 0), "region 1");
    assert_eq!(default_annotation_name(AnnotationType::Line, 9), "line 10");
    assert_eq!(default_annotation_name(AnnotationType::Polygon, 1233), "region 1234");
}

#[test]
fn single_vertex_annotation_is_discarded() {
    let mut e = editor_with_image();
    e.set_tool(Tool::Polygon);
    e.click(Point::new(100_000, 100_000), REACH);
    assert_eq!(e.in_progress_annotation.as_ref().unwrap().name, "region 1");
    e.finish_annotation();
    assert!(e.in_progress_annotation.is_none());
    assert_eq!(count(&e), 0);
    assert_eq!(e.annotation_counter, 0);
    assert!(!e.history.can_undo());
}

#[test]
fn two_vertex_annotation_is_committed_with_snapshot() {
    let mut e = editor_with_image();
    e.set_tool(Tool::Line);
    e.click(Point::new(100_000, 100_000), REACH);
    e.click(Point::new(200_000, 100_000), REACH);
    e.escape();
    assert_eq!(count(&e), 1);
    assert_eq!(e.annotation_counter, 1);
    assert!(e.history.can_undo());
    let p = e.project.as_ref().unwrap();
    assert_eq!(p.annotations[0].name, "line 1");
    assert_eq!(p.annotations[0].annotation_type, AnnotationType::Line);
    assert_eq!(
        p.annotations[0].vertices,
        vec![Point::new(100_000, 100_000), Point::new(200_000, 100_000)]
    );
    // the snapshot is the collection before the commit
    assert!(e.undo());
    assert_eq!(count(&e), 0);
    assert!(e.redo());
    assert_eq!(count(&e), 1);
    // the counter keeps counting after an undo: names are not reused
    e.click(Point::new(1, 1), REACH);
    assert_eq!(e.in_progress_annotation.as_ref().unwrap().name, "line 2");
}

#[test]
fn escape_cancels_polygon_and_leaves_history() {
    let mut e = editor_with_image();
    e.set_tool(Tool::Polygon);
    e.click(Point::new(1, 1), REACH);
    e.click(Point::new(2, 2), REACH);
    e.escape();
    assert!(e.in_progress_annotation.is_none());
    assert_eq!(count(&e), 0);
    assert_eq!(e.annotation_counter, 0);
    assert!(!e.history.can_undo());
}

#[test]
fn select_tool_never_draws() {
    let mut e = editor_with_image();
    e.click(Point::new(1, 1), REACH);
    assert!(e.in_progress_annotation.is_none());
    e.start_annotation();
    assert!(e.in_progress_annotation.is_none());
}

#[test]
fn clicks_without_project_or_while_loading_are_ignored() {
    let mut e = Editor::new();
    e.set_tool(Tool::Polygon);
    e.click(Point::new(1, 1), REACH);
    assert!(e.in_progress_annotation.is_none());

    let mut e = editor_with_image();
    e.set_tool(Tool::Polygon);
    let _ticket = e.begin_load();
    e.click(Point::new(1, 1), REACH);
    assert!(e.in_progress_annotation.is_none());
}

#[test]
fn draw_drag_delete_and_undo_end_to_end() {
    let mut e = editor_with_image();
    e.set_tool(Tool::Polygon);
    e.click(Point::new(100_000, 100_000), REACH);
    e.click(Point::new(500_000, 100_000), REACH);
    e.click(Point::new(300_000, 500_000), REACH);
    e.double_click();
    assert_eq!(count(&e), 1);

    // select it by clicking inside, then drag its second vertex
    e.set_tool(Tool::Select);
    e.click(Point::new(300_000, 200_000), REACH);
    assert_eq!(e.selected_annotation, Some(0));
    assert!(e.begin_drag(Point::new(505_000, 95_000), REACH));
    assert_eq!(e.dragging_vertex, Some((0, 1)));
    e.drag_to(Point::new(600_000, 150_000));
    e.drag_to(Point::new(700_000, 200_000));
    e.end_drag();
    let moved = Point::new(700_000, 200_000);
    assert_eq!(e.project.as_ref().unwrap().annotations[0].vertices[1], moved);

    // one undo restores the position from before the whole drag
    assert!(e.undo());
    assert_eq!(
        e.project.as_ref().unwrap().annotations[0].vertices[1],
        Point::new(500_000, 100_000)
    );
    assert_eq!(e.selected_annotation, None);
    assert!(e.redo());
    assert_eq!(e.project.as_ref().unwrap().annotations[0].vertices[1], moved);

    // delete, then undo: the annotation comes back as it stood when deleted
    e.click(Point::new(300_000, 200_000), REACH);
    assert_eq!(e.selected_annotation, Some(0));
    assert!(!e.delete_selected(true));
    assert_eq!(count(&e), 1);
    assert!(e.delete_selected(false));
    assert_eq!(count(&e), 0);
    assert_eq!(e.selected_annotation, None);
    assert!(e.undo());
    assert_eq!(count(&e), 1);
    assert_eq!(e.project.as_ref().unwrap().annotations[0].vertices[1], moved);
}

#[test]
fn stale_indices_are_ignored() {
    let mut e = editor_with_image();
    e.selected_annotation = Some(3);
    assert!(!e.delete_selected(false));
    assert!(!e.begin_drag(Point::new(0, 0), REACH));
    e.dragging_vertex = Some((3, 0));
    let before = e.project.clone();
    e.drag_to(Point::new(9, 9));
    assert_eq!(e.project, before);
    assert!(!e.undo());
    assert!(!e.redo());
}

#[test]
fn click_outside_clears_selection() {
    let mut e = editor_with_image();
    e.set_tool(Tool::Line);
    e.click(Point::new(100_000, 100_000), REACH);
    e.click(Point::new(200_000, 100_000), REACH);
    e.escape();
    e.set_tool(Tool::Select);
    e.click(Point::new(199_000, 101_000), REACH);
    assert_eq!(e.selected_annotation, Some(0));
    // lines have no interior
    e.click(Point::new(150_000, 100_000), REACH);
    assert_eq!(e.selected_annotation, None);
}

#[test]
fn superseded_load_result_is_refused() {
    let mut e = Editor::new();
    let first = e.begin_load();
    let second = e.begin_load();
    assert_ne!(first, second);
    let stale = Loaded::FreshImage { media_file: "old.png".to_string(), width: 1, height: 1 };
    assert!(!e.complete_load(first, stale));
    assert!(e.project.is_none());
    assert!(e.is_loading());

    let mut imported = ProjectData::new("new.png".to_string(), 10, 20);
    let mut a = Annotation::new("region 7".to_string(), AnnotationType::Polygon);
    a.add_vertex(Point::new(1, 1));
    a.add_vertex(Point::new(2, 2));
    imported.annotations.push(a);
    assert!(e.complete_load(second, Loaded::Imported(imported.clone())));
    assert_eq!(e.project, Some(imported));
    assert_eq!(e.annotation_counter, 1);
    assert!(!e.complete_load(second, Loaded::Failed));
}

#[test]
fn failed_load_keeps_project() {
    let mut e = editor_with_image();
    let t = e.begin_load();
    assert!(e.complete_load(t, Loaded::Failed));
    assert!(!e.is_loading());
    assert_eq!(e.project.as_ref().unwrap().media_file, "img.png");
    assert_eq!(e.project.as_ref().unwrap().frame_width, 640);
}

#[test]
fn loaded_image_checks_buffer_size() {
    assert!(LoadedImage::new(2, 3, vec![0u8; 24]).is_some());
    assert!(LoadedImage::new(2, 3, vec![0u8; 23]).is_none());
    let img = LoadedImage { width: 1, height: 1, pixels: vec![1, 2, 3] };
    assert!(!img.is_well_formed());
}
