use roids::format::{format_for_path, FileFormat, FormatError};
use roids::yaml::inline_vertex_lists;

const GENERIC: &str = "media_file: /tmp/a.png
frame_width: 640
frame_height: 480
annotations:
- name: region 1
  type: polygon
  vertices:
  - x: 0.1
    y: 0.2
  - x: 0.3
    y: 0.4
- name: line 2
  type: line
  vertices:
  - x: 1.0
    y: 0.0
  - x: 0.5
    y: 0.25
";

const INLINE: &str = "media_file: /tmp/a.png
frame_width: 640
frame_height: 480
annotations:
- name: region 1
  type: polygon
  vertices: [[0.1, 0.2], [0.3, 0.4]]
- name: line 2
  type: line
  vertices: [[1.0, 0.0], [0.5, 0.25]]
";

#[test]
fn vertex_blocks_become_inline_lists() {
    let out = inline_vertex_lists(GENERIC);
    assert_eq!(out, INLINE);
    assert!(out.lines().any(|l| l.trim() == "vertices: [[0.1, 0.2], [0.3, 0.4]]"));
    assert!(!out.contains("- x:"));
}

#[test]
fn inline_text_is_left_alone() {
    assert_eq!(inline_vertex_lists(INLINE), INLINE);
    assert_eq!(inline_vertex_lists(""), "");
    let empty = "annotations:\n- name: a\n  type: line\n  vertices: []\n";
    assert_eq!(inline_vertex_lists(empty), empty);
}

#[test]
fn indented_block_without_final_newline() {
    let text = "vertices:\n    - x: 1e-7\n      y: -2.5\n    - x: .nan\n      y: .inf";
    assert_eq!(inline_vertex_lists(text), "vertices: [[1e-7, -2.5], [.nan, .inf]]");
}

#[test]
fn trailing_spaces_after_the_key_are_accepted() {
    let text = "vertices:  \n- x: 1\n  y: 2\nnext: 3\n";
    assert_eq!(inline_vertex_lists(text), "vertices: [[1, 2]]\nnext: 3\n");
}

#[test]
fn blocks_of_another_shape_are_kept() {
    // a third field under the last item: the sequence does not end with the pairs
    let text = "vertices:\n- x: 1\n  y: 2\n  z: 3\n";
    assert_eq!(inline_vertex_lists(text), text);
    // an item that is not a pair follows
    let text = "vertices:\n- x: 1\n  y: 2\n- 7\n";
    assert_eq!(inline_vertex_lists(text), text);
    // values that are not plain scalars
    let text = "vertices:\n- x: 'a'\n  y: 2\n";
    assert_eq!(inline_vertex_lists(text), text);
    // items less indented than the key
    let text = "  vertices:\n- x: 1\n  y: 2\n";
    assert_eq!(inline_vertex_lists(text), text);
}

#[test]
fn format_dispatch_by_extension() {
    assert_eq!(format_for_path("out/annotations.json"), Ok(FileFormat::Json));
    assert_eq!(format_for_path("annotations.yaml"), Ok(FileFormat::Yaml));
    assert_eq!(format_for_path("/a.b/c.yml"), Ok(FileFormat::Yaml));
    assert_eq!(format_for_path("x.tar.json"), Ok(FileFormat::Json));
    assert_eq!(format_for_path("notes.txt"), Err(FormatError::UnsupportedExtension));
    assert_eq!(format_for_path("annotations"), Err(FormatError::UnsupportedExtension));
    assert_eq!(format_for_path("dir.json/file"), Err(FormatError::UnsupportedExtension));
    assert_eq!(format_for_path(".json"), Err(FormatError::UnsupportedExtension));
    assert_eq!(format_for_path("a.JSON"), Err(FormatError::UnsupportedExtension));
}
