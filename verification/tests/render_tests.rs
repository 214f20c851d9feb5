//! Tests for the attribute-to-render-primitive translation: one exact
//! expected value for each attribute variant, order preservation, and
//! the pass-through of unvalidated ranges.

use potato_md::InlineBuffer;
use potato_md::InlinePos;
use potato_md::RenderAttr;
use potato_md::RenderEntry;
use potato_md::TextAttr;
use potato_md::TextAttrType;

fn text_vec(s: &str) -> Vec<char> {
    s.chars().collect()
}

#[test]
fn italic_gives_one_style_entry_over_range() {
    let mut doc = InlineBuffer::new();
    doc.set_text(text_vec("Hello"));
    doc.apply_attribute(InlinePos::new(0), InlinePos::new(5), TextAttr::Italic);
    let list = doc.build_render_attributes();
    assert_eq!(
        list,
        vec![RenderEntry { attr: RenderAttr::StyleItalic, start: 0, end: 5 }]
    );
}

#[test]
fn bold_gives_weight_700() {
    let mut doc = InlineBuffer::new();
    doc.set_text(text_vec("abc"));
    doc.apply_attribute(InlinePos::new(0), InlinePos::new(3), TextAttr::Bold);
    assert_eq!(
        doc.build_render_attributes(),
        vec![RenderEntry { attr: RenderAttr::Weight(700), start: 0, end: 3 }]
    );
}

#[test]
fn underline_and_strikethrough_give_line_decorations() {
    let mut doc = InlineBuffer::new();
    doc.set_text(text_vec("abcd"));
    doc.apply_attribute(InlinePos::new(0), InlinePos::new(2), TextAttr::Underline);
    doc.apply_attribute(InlinePos::new(2), InlinePos::new(4), TextAttr::Strikethrough);
    assert_eq!(
        doc.build_render_attributes(),
        vec![
            RenderEntry { attr: RenderAttr::UnderlineSingle, start: 0, end: 2 },
            RenderEntry { attr: RenderAttr::Strikethrough(true), start: 2, end: 4 },
        ]
    );
}

#[test]
fn color_channels_scale_to_16_bit() {
    let mut doc = InlineBuffer::new();
    doc.set_text(text_vec("abc"));
    doc.apply_attribute(InlinePos::new(0), InlinePos::new(3), TextAttr::Color(255, 0, 128));
    assert_eq!(
        doc.build_render_attributes(),
        vec![RenderEntry { attr: RenderAttr::Foreground(65535, 0, 32896), start: 0, end: 3 }]
    );
}

#[test]
fn link_gives_blue_foreground_then_underline() {
    let mut doc = InlineBuffer::new();
    doc.set_text(text_vec("click"));
    doc.apply_attribute(
        InlinePos::new(0),
        InlinePos::new(5),
        TextAttr::Link(String::from("https://example.com")),
    );
    assert_eq!(
        doc.build_render_attributes(),
        vec![
            RenderEntry { attr: RenderAttr::Foreground(0, 0, 65535), start: 0, end: 5 },
            RenderEntry { attr: RenderAttr::UnderlineSingle, start: 0, end: 5 },
        ]
    );
}

#[test]
fn font_size_scales_by_fixed_point_unit() {
    let mut doc = InlineBuffer::new();
    doc.set_text(text_vec("abc"));
    doc.apply_attribute(InlinePos::new(0), InlinePos::new(3), TextAttr::FontSize(12));
    assert_eq!(
        doc.build_render_attributes(),
        vec![RenderEntry { attr: RenderAttr::Size(12288), start: 0, end: 3 }]
    );
}

#[test]
fn font_family_passes_through_unchanged() {
    let mut doc = InlineBuffer::new();
    doc.set_text(text_vec("abc"));
    doc.apply_attribute(
        InlinePos::new(0),
        InlinePos::new(3),
        TextAttr::FontFamily(String::from("Monospace")),
    );
    assert_eq!(
        doc.build_render_attributes(),
        vec![RenderEntry {
            attr: RenderAttr::Family(String::from("Monospace")),
            start: 0,
            end: 3,
        }]
    );
}

#[test]
fn attributes_keep_their_relative_order() {
    let mut doc = InlineBuffer::new();
    doc.set_text(text_vec("Hello"));
    doc.apply_attribute(InlinePos::new(0), InlinePos::new(2), TextAttr::Bold);
    doc.apply_attribute(InlinePos::new(1), InlinePos::new(4), TextAttr::Italic);
    doc.apply_attribute(InlinePos::new(0), InlinePos::new(5), TextAttr::Bold);
    assert_eq!(
        doc.build_render_attributes(),
        vec![
            RenderEntry { attr: RenderAttr::Weight(700), start: 0, end: 2 },
            RenderEntry { attr: RenderAttr::StyleItalic, start: 1, end: 4 },
            RenderEntry { attr: RenderAttr::Weight(700), start: 0, end: 5 },
        ]
    );
}

#[test]
fn overlapping_same_kind_spans_are_not_merged() {
    let mut doc = InlineBuffer::new();
    doc.set_text(text_vec("Hello"));
    doc.apply_attribute(InlinePos::new(0), InlinePos::new(4), TextAttr::Underline);
    doc.apply_attribute(InlinePos::new(2), InlinePos::new(5), TextAttr::Underline);
    assert_eq!(
        doc.build_render_attributes(),
        vec![
            RenderEntry { attr: RenderAttr::UnderlineSingle, start: 0, end: 4 },
            RenderEntry { attr: RenderAttr::UnderlineSingle, start: 2, end: 5 },
        ]
    );
}

#[test]
fn inverted_and_out_of_range_spans_pass_through() {
    let mut doc = InlineBuffer::new();
    doc.set_text(text_vec("Hi"));
    doc.apply_attribute(InlinePos::new(10), InlinePos::new(3), TextAttr::Bold);
    assert_eq!(
        doc.build_render_attributes(),
        vec![RenderEntry { attr: RenderAttr::Weight(700), start: 10, end: 3 }]
    );
}

#[test]
fn render_list_is_recomputed_fresh_each_call() {
    let mut doc = InlineBuffer::new();
    doc.set_text(text_vec("Hello"));
    doc.apply_attribute(InlinePos::new(0), InlinePos::new(5), TextAttr::Bold);
    let first = doc.build_render_attributes();
    let second = doc.build_render_attributes();
    assert_eq!(first, second);
    doc.apply_attribute(InlinePos::new(0), InlinePos::new(5), TextAttr::Italic);
    assert_eq!(doc.build_render_attributes().len(), 2);
}

#[test]
fn attr_type_reports_the_kind() {
    assert_eq!(TextAttr::Bold.attr_type(), TextAttrType::Bold);
    assert_eq!(TextAttr::Italic.attr_type(), TextAttrType::Italic);
    assert_eq!(TextAttr::Underline.attr_type(), TextAttrType::Underline);
    assert_eq!(TextAttr::Strikethrough.attr_type(), TextAttrType::Strikethrough);
    assert_eq!(TextAttr::Color(1, 2, 3).attr_type(), TextAttrType::Color);
    assert_eq!(
        TextAttr::Link(String::from("x")).attr_type(),
        TextAttrType::Link
    );
    assert_eq!(TextAttr::FontSize(9).attr_type(), TextAttrType::FontSize);
    assert_eq!(
        TextAttr::FontFamily(String::from("Serif")).attr_type(),
        TextAttrType::FontFamily
    );
}
