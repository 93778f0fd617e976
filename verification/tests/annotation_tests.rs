//! Tests for annotation storage and management

use nameless_core::annotation::AnnotationStore;
use nameless_core::{AnnotationTool, Color, Point, Scalar};

fn point(x: f32, y: f32, pressure: f32) -> Point {
    Point {
        x: Scalar { bits: x.to_bits() },
        y: Scalar { bits: y.to_bits() },
        pressure: Scalar { bits: pressure.to_bits() },
    }
}

#[test]
fn test_stroke_lifecycle() {
    let mut store = AnnotationStore::new();

    // Start stroke
    store.start_stroke(
        "stroke-1",
        "participant-1",
        AnnotationTool::Pen,
        Color::red(),
        point(0.1, 0.1, 1.0),
    );

    assert_eq!(store.len(), 1);

    // Update stroke
    store.update_stroke("stroke-1", &[point(0.2, 0.2, 1.0), point(0.3, 0.3, 1.0)]);

    let stroke = store.get("stroke-1").unwrap();
    assert_eq!(stroke.points.len(), 3);
    assert!(!stroke.completed);

    // Complete stroke
    store.complete_stroke("stroke-1");
    let stroke = store.get("stroke-1").unwrap();
    assert!(stroke.completed);

    // Delete stroke
    store.delete_stroke("stroke-1");
    assert!(store.is_empty());
}

#[test]
fn test_clear_all() {
    let mut store = AnnotationStore::new();

    store.start_stroke("stroke-1", "p1", AnnotationTool::Pen, Color::red(), point(0.1, 0.1, 1.0));
    store.start_stroke(
        "stroke-2",
        "p2",
        AnnotationTool::Highlighter,
        Color::blue(),
        point(0.5, 0.5, 1.0),
    );

    assert_eq!(store.len(), 2);

    store.clear_all();
    assert!(store.is_empty());
}

#[test]
fn test_delete_by_participant() {
    let mut store = AnnotationStore::new();

    store.start_stroke("stroke-1", "p1", AnnotationTool::Pen, Color::red(), point(0.1, 0.1, 1.0));
    store.start_stroke("stroke-2", "p2", AnnotationTool::Pen, Color::blue(), point(0.2, 0.2, 1.0));
    store.start_stroke("stroke-3", "p1", AnnotationTool::Pen, Color::green(), point(0.3, 0.3, 1.0));

    assert_eq!(store.len(), 3);

    store.delete_by_participant("p1");
    assert_eq!(store.len(), 1);
    assert!(store.get("stroke-2").is_some());
}

#[test]
fn test_stroke_render_order() {
    let mut store = AnnotationStore::new();

    store.start_stroke("stroke-a", "p1", AnnotationTool::Pen, Color::red(), point(0.1, 0.1, 1.0));
    store.start_stroke("stroke-b", "p2", AnnotationTool::Pen, Color::blue(), point(0.2, 0.2, 1.0));
    store.start_stroke("stroke-c", "p1", AnnotationTool::Pen, Color::green(), point(0.3, 0.3, 1.0));

    let strokes = store.strokes();
    assert_eq!(strokes.len(), 3);
    assert_eq!(strokes[0].id, "stroke-a");
    assert_eq!(strokes[1].id, "stroke-b");
    assert_eq!(strokes[2].id, "stroke-c");
}

#[test]
fn test_highlighter_tool() {
    let mut store = AnnotationStore::new();

    store.start_stroke(
        "highlight-1",
        "p1",
        AnnotationTool::Highlighter,
        Color { r: 255, g: 255, b: 0, a: 128 }, // Semi-transparent yellow
        point(0.1, 0.1, 1.0),
    );

    let stroke = store.get("highlight-1").unwrap();
    assert_eq!(stroke.tool, AnnotationTool::Highlighter);
    assert_eq!(stroke.color.a, 128); // Check transparency
}

fn ids(store: &AnnotationStore) -> Vec<String> {
    store.strokes().iter().map(|s| s.id.clone()).collect()
}

#[test]
fn render_order_is_insertion_order_less_deletions() {
    let mut store = AnnotationStore::new();
    store.start_stroke("a", "p1", AnnotationTool::Pen, Color::red(), point(0.0, 0.0, 1.0));
    store.start_stroke("b", "p2", AnnotationTool::Pen, Color::red(), point(0.0, 0.0, 1.0));
    store.start_stroke("c", "p1", AnnotationTool::Eraser, Color::red(), point(0.0, 0.0, 1.0));
    store.start_stroke("d", "p3", AnnotationTool::Pen, Color::red(), point(0.0, 0.0, 1.0));
    store.delete_stroke("b");
    assert_eq!(ids(&store), vec!["a", "c", "d"]);
    store.start_stroke("b", "p2", AnnotationTool::Pen, Color::red(), point(0.0, 0.0, 1.0));
    assert_eq!(ids(&store), vec!["a", "c", "d", "b"]);
    store.delete_by_participant("p1");
    assert_eq!(ids(&store), vec!["d", "b"]);
    store.delete_stroke("missing");
    assert_eq!(ids(&store), vec!["d", "b"]);
    store.clear_all();
    assert!(ids(&store).is_empty());
    assert_eq!(store.len(), 0);
}

#[test]
fn update_of_unknown_stroke_changes_nothing() {
    let mut store = AnnotationStore::new();
    store.start_stroke("s1", "p1", AnnotationTool::Pen, Color::red(), point(0.1, 0.1, 1.0));
    store.update_stroke("nope", &[point(0.2, 0.2, 1.0)]);
    store.complete_stroke("nope");
    assert_eq!(store.len(), 1);
    assert!(store.get("nope").is_none());
    let stroke = store.get("s1").unwrap();
    assert_eq!(stroke.points.len(), 1);
    assert!(!stroke.completed);
}

#[test]
fn delete_by_other_author_leaves_stroke_untouched() {
    let mut store = AnnotationStore::new();
    store.start_stroke("s1", "p1", AnnotationTool::Pen, Color::red(), point(0.1, 0.1, 1.0));
    store.update_stroke(
        "s1",
        &[point(0.2, 0.2, 1.0), point(0.3, 0.3, 0.5), point(0.4, 0.4, 0.25)],
    );
    store.delete_by_participant("p2");
    assert_eq!(store.len(), 1);
    let stroke = store.get("s1").unwrap();
    assert_eq!(stroke.participant_id, "p1");
    assert_eq!(stroke.points.len(), 4);
    assert_eq!(stroke.points[3], point(0.4, 0.4, 0.25));
    assert_eq!(stroke.points[0], point(0.1, 0.1, 1.0));
    assert_eq!(ids(&store), vec!["s1"]);
}

#[test]
fn restarting_a_stroke_replaces_it_and_moves_it_to_the_end() {
    let mut store = AnnotationStore::new();
    store.start_stroke("s", "p1", AnnotationTool::Pen, Color::red(), point(0.1, 0.1, 1.0));
    store.update_stroke("s", &[point(0.2, 0.2, 1.0)]);
    store.start_stroke("s", "p2", AnnotationTool::Highlighter, Color::blue(), point(0.9, 0.9, 1.0));
    assert_eq!(store.len(), 1);
    let stroke = store.get("s").unwrap();
    assert_eq!(stroke.participant_id, "p2");
    assert_eq!(stroke.points.len(), 1);
    assert_eq!(ids(&store), vec!["s"]);
    store.delete_by_participant("p1");
    assert_eq!(store.len(), 1);
    assert_eq!(ids(&store), vec!["s"]);
    store.delete_stroke("s");
    assert!(store.is_empty());
    assert!(ids(&store).is_empty());
}

#[test]
fn a_restarted_stroke_is_rendered_last_and_once() {
    let mut store = AnnotationStore::new();
    store.start_stroke("a", "p1", AnnotationTool::Pen, Color::red(), point(0.1, 0.1, 1.0));
    store.start_stroke("b", "p1", AnnotationTool::Pen, Color::red(), point(0.2, 0.2, 1.0));
    store.start_stroke("c", "p2", AnnotationTool::Pen, Color::red(), point(0.3, 0.3, 1.0));
    store.start_stroke("a", "p2", AnnotationTool::Pen, Color::green(), point(0.4, 0.4, 1.0));
    assert_eq!(ids(&store), vec!["b", "c", "a"]);
    assert_eq!(store.len(), 3);
    // Deleting by author takes exactly that author's strokes, whatever was
    // started twice.
    store.delete_by_participant("p2");
    assert_eq!(ids(&store), vec!["b"]);
    assert_eq!(store.len(), 1);
    assert_eq!(store.get("b").unwrap().participant_id, "p1");
}
