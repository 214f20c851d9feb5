//! Tests for the lazy layout view: dirtiness-driven rebuilds, width-only
//! reflows, measurement mapping, and the buffer-slot behaviour.

use potato_md::InlineBuffer;
use potato_md::InlinePos;
use potato_md::InlineView;
use potato_md::Orientation;
use potato_md::TextAttr;

fn content(s: &str) -> Vec<char> {
    s.chars().collect()
}

#[test]
fn measurement_is_zero_without_a_buffer() {
    let mut view = InlineView::new();
    assert!(!view.is_dirty());
    let report = view.update_layout(Orientation::Vertical, 100);
    assert!(!report.rebuilt);
    assert!(!report.width_set);
    assert!(!view.has_layout());
    assert_eq!(view.measure_size(Orientation::Vertical, 2048, 4096), (0, 0));
    assert_eq!(view.measure_size(Orientation::Horizontal, 2048, 4096), (0, 0));
}

#[test]
fn one_change_triggers_exactly_one_rebuild() {
    let mut view = InlineView::new();
    view.set_text(content("Hello"));
    assert!(view.is_dirty());

    let first = view.update_layout(Orientation::Vertical, 100);
    assert!(first.rebuilt);
    assert!(first.width_set);
    assert_eq!(view.layout_width(), Some(100 * 1024));
    assert_eq!(view.layout_text().unwrap(), &content("Hello"));

    let second = view.update_layout(Orientation::Vertical, 100);
    assert!(!second.rebuilt);
    assert!(!second.width_set);
}

#[test]
fn width_only_change_reflows_without_rebuild() {
    let mut view = InlineView::new();
    view.set_text(content("Hello"));
    view.update_layout(Orientation::Vertical, 100);

    let report = view.update_layout(Orientation::Vertical, 50);
    assert!(!report.rebuilt);
    assert!(report.width_set);
    assert_eq!(view.layout_width(), Some(50 * 1024));
    assert_eq!(view.layout_text().unwrap(), &content("Hello"));
}

#[test]
fn horizontal_requests_do_not_assign_width() {
    let mut view = InlineView::new();
    view.set_text(content("Hello"));
    let report = view.update_layout(Orientation::Horizontal, 300);
    assert!(report.rebuilt);
    assert!(!report.width_set);
    assert_eq!(view.layout_width(), Some(-1));
}

#[test]
fn new_change_marks_dirty_again() {
    let mut view = InlineView::new();
    view.set_text(content("one"));
    view.update_layout(Orientation::Vertical, 100);
    assert!(!view.is_dirty());
    view.set_text(content("two"));
    assert!(view.is_dirty());
    let report = view.update_layout(Orientation::Vertical, 100);
    assert!(report.rebuilt);
    assert_eq!(view.layout_text().unwrap(), &content("two"));
}

#[test]
fn measurement_maps_backend_extents() {
    let mut view = InlineView::new();
    view.set_text(content("Hello"));
    view.update_layout(Orientation::Vertical, 100);
    assert_eq!(view.measure_size(Orientation::Horizontal, 2048, 4096), (0, 2));
    assert_eq!(view.measure_size(Orientation::Vertical, 2048, 4096), (4, 4));
}

#[test]
fn get_text_forwards_or_defaults_to_empty() {
    let mut view = InlineView::new();
    assert_eq!(view.get_text(), content(""));
    view.set_text(content("Hello"));
    assert_eq!(view.get_text(), content("Hello"));
    view.set_buffer(None);
    assert_eq!(view.get_text(), content(""));
    assert!(view.is_dirty());
}

#[test]
fn attaching_a_buffer_marks_dirty_and_rebuild_pulls_its_state() {
    let mut buffer = InlineBuffer::new();
    buffer.set_text(content("prepared"));
    buffer.apply_attribute(InlinePos::new(0), InlinePos::new(8), TextAttr::Bold);

    let mut view = InlineView::new();
    view.set_buffer(Some(buffer));
    assert!(view.is_dirty());

    let report = view.update_layout(Orientation::Horizontal, 0);
    assert!(report.rebuilt);
    assert_eq!(view.layout_text().unwrap(), &content("prepared"));
}

#[test]
fn attaching_or_detaching_discards_the_cached_layout() {
    let mut view = InlineView::new();
    view.set_text(content("Hello"));
    view.update_layout(Orientation::Vertical, 100);
    assert!(view.has_layout());

    let mut other = InlineBuffer::new();
    other.set_text(content("other"));
    view.set_buffer(Some(other));
    assert!(!view.has_layout());
    assert!(view.is_dirty());

    view.update_layout(Orientation::Vertical, 100);
    assert!(view.has_layout());
    view.set_buffer(None);
    assert!(!view.has_layout());
    let report = view.update_layout(Orientation::Vertical, 100);
    assert!(report.rebuilt);
    assert!(!view.has_layout());
    assert_eq!(view.measure_size(Orientation::Vertical, 2048, 4096), (0, 0));
}

#[test]
fn take_buffer_detaches_and_returns_the_document() {
    let mut view = InlineView::new();
    assert!(view.take_buffer().is_none());

    view.set_text(content("Hello"));
    view.update_layout(Orientation::Vertical, 100);
    let doc = view.take_buffer().expect("a buffer was attached");
    assert_eq!(doc.text(), &content("Hello"));
    assert!(!view.has_layout());
    assert!(view.is_dirty());
    assert_eq!(view.get_text(), content(""));
}

#[test]
fn displayed_document_can_be_mutated_and_reattached() {
    let mut view = InlineView::new();
    view.set_text(content("Hello"));
    view.update_layout(Orientation::Vertical, 100);

    let mut doc = view.take_buffer().unwrap();
    let a0 = doc.push_anchor();
    assert_eq!(a0.id(), 0);
    view.set_buffer(Some(doc));

    let report = view.update_layout(Orientation::Vertical, 100);
    assert!(report.rebuilt);
    assert_eq!(view.layout_text().unwrap(), &content("Hello\u{FFFC}"));

    // Identities keep counting across the detach/re-attach round trip.
    let mut doc = view.take_buffer().unwrap();
    let a1 = doc.push_anchor();
    assert_eq!(a1.id(), 1);
    view.set_buffer(Some(doc));
}

#[test]
fn buffer_accessor_reads_the_attached_document() {
    let mut view = InlineView::new();
    assert!(view.buffer().is_none());

    view.set_text(content("Hi"));
    let doc = view.buffer().expect("set_text created a buffer");
    assert_eq!(doc.text(), &content("Hi"));
    assert_eq!(doc.current_pos().offset(), 2);
    assert_eq!(doc.events().len(), 1);
}

#[test]
fn rebuilt_layout_is_word_char_wrapped() {
    let mut view = InlineView::new();
    assert!(view.layout_wrap().is_none());
    view.set_text(content("Hello"));
    view.update_layout(Orientation::Horizontal, 0);
    assert_eq!(view.layout_wrap(), Some(potato_md::WrapMode::WordChar));
}

#[test]
fn prepare_snapshot_reapplies_width_only_when_it_differs() {
    let mut view = InlineView::new();
    assert!(!view.prepare_snapshot(100));

    view.set_text(content("Hello"));
    view.update_layout(Orientation::Vertical, 100);
    assert!(!view.prepare_snapshot(100));
    assert!(view.prepare_snapshot(80));
    assert_eq!(view.layout_width(), Some(80 * 1024));
}
