//! Translation of stored attributes into the rendering backend's
//! primitive attribute representation.
//!
//! The backend consumes a flat list of `(primitive, start, end)` entries.
//! [`render_of_attr`] says what each attribute variant becomes:
//!
//! - bold turns into a font weight,
//! - italic into a slant style,
//! - underline and strikethrough into line decorations,
//! - a colour into three 16-bit channels, each 8-bit channel scaled to
//!   the full 16-bit intensity range,
//! - a link into a fixed visual treatment (blue foreground plus a single
//!   underline) — two entries, the target itself is not rendered,
//! - a font size into backend fixed-point units,
//! - a font family into the family name, passed through unchanged.

use vstd::prelude::*;

use crate::attrs::TextAttr;
use crate::attrs::TextAttrModel;

verus! {

/// The backend's fixed-point unit factor: sizes and widths handed to the
/// backend are multiples of this.
pub const RENDER_SCALE: i64 = 1024;

/// The font weight the backend uses for bold text.
pub const BOLD_WEIGHT: u16 = 700;

/// Scaling factor from an 8-bit colour channel to the backend's 16-bit
/// intensity range: 255 * 257 == 65535, the maximum intensity.
pub const CHANNEL_SCALE: u16 = 257;

/// The largest 16-bit channel intensity, used as the blue channel of the
/// fixed link tint.
pub const MAX_INTENSITY: u16 = 65535;

/// A primitive attribute of the rendering backend.
#[derive(Debug, Clone, PartialEq)]
pub enum RenderAttr {
    /// A font weight.
    Weight(u16),
    /// An italic slant.
    StyleItalic,
    /// A single underline.
    UnderlineSingle,
    /// Whether the range is struck through.
    Strikethrough(bool),
    /// A foreground colour as 16-bit red, green and blue channels.
    Foreground(u16, u16, u16),
    /// An absolute font size in the backend's fixed-point units.
    Size(i64),
    /// A font family name.
    Family(String),
}

/// The model of a [`RenderAttr`].
#[verifier::ext_equal]
pub ghost enum RenderAttrModel {
    Weight(int),
    StyleItalic,
    UnderlineSingle,
    Strikethrough(bool),
    Foreground(int, int, int),
    Size(int),
    Family(Seq<char>),
}

impl View for RenderAttr {
    type V = RenderAttrModel;

    open spec fn view(&self) -> RenderAttrModel {
        match self {
            RenderAttr::Weight(w) => RenderAttrModel::Weight(*w as int),
            RenderAttr::StyleItalic => RenderAttrModel::StyleItalic,
            RenderAttr::UnderlineSingle => RenderAttrModel::UnderlineSingle,
            RenderAttr::Strikethrough(on) => RenderAttrModel::Strikethrough(*on),
            RenderAttr::Foreground(r, g, b) => RenderAttrModel::Foreground(
                *r as int,
                *g as int,
                *b as int,
            ),
            RenderAttr::Size(units) => RenderAttrModel::Size(*units as int),
            RenderAttr::Family(family) => RenderAttrModel::Family(family@),
        }
    }
}

impl DeepView for RenderAttr {
    type V = RenderAttrModel;

    open spec fn deep_view(&self) -> RenderAttrModel {
        self.view()
    }
}

/// One backend primitive applied over the half-open character range
/// `[start, end)`.
#[derive(Debug, Clone, PartialEq)]
pub struct RenderEntry {
    pub attr: RenderAttr,
    pub start: usize,
    pub end: usize,
}

/// The model of a [`RenderEntry`].
#[verifier::ext_equal]
pub ghost struct RenderEntryModel {
    pub attr: RenderAttrModel,
    pub start: int,
    pub end: int,
}

impl View for RenderEntry {
    type V = RenderEntryModel;

    open spec fn view(&self) -> RenderEntryModel {
        RenderEntryModel { attr: self.attr@, start: self.start as int, end: self.end as int }
    }
}

impl DeepView for RenderEntry {
    type V = RenderEntryModel;

    open spec fn deep_view(&self) -> RenderEntryModel {
        self.view()
    }
}

/// The backend primitives an attribute over `[start, end)` translates to,
/// in the order they are handed to the backend.
pub open spec fn render_of_attr(a: TextAttrModel, start: int, end: int) -> Seq<RenderEntryModel> {
    match a {
        TextAttrModel::Bold => seq![
            RenderEntryModel { attr: RenderAttrModel::Weight(BOLD_WEIGHT as int), start, end },
        ],
        TextAttrModel::Italic => seq![
            RenderEntryModel { attr: RenderAttrModel::StyleItalic, start, end },
        ],
        TextAttrModel::Underline => seq![
            RenderEntryModel { attr: RenderAttrModel::UnderlineSingle, start, end },
        ],
        TextAttrModel::Strikethrough => seq![
            RenderEntryModel { attr: RenderAttrModel::Strikethrough(true), start, end },
        ],
        TextAttrModel::Color(r, g, b) => seq![
            RenderEntryModel {
                attr: RenderAttrModel::Foreground(
                    r * CHANNEL_SCALE as int,
                    g * CHANNEL_SCALE as int,
                    b * CHANNEL_SCALE as int,
                ),
                start,
                end,
            },
        ],
        TextAttrModel::Link(_) => seq![
            RenderEntryModel {
                attr: RenderAttrModel::Foreground(0, 0, MAX_INTENSITY as int),
                start,
                end,
            },
            RenderEntryModel { attr: RenderAttrModel::UnderlineSingle, start, end },
        ],
        TextAttrModel::FontSize(size) => seq![
            RenderEntryModel { attr: RenderAttrModel::Size(size * RENDER_SCALE as int), start, end },
        ],
        TextAttrModel::FontFamily(family) => seq![
            RenderEntryModel { attr: RenderAttrModel::Family(family), start, end },
        ],
    }
}

impl TextAttr {
    /// Translate this attribute over `[start, end)` into backend
    /// primitives, appending them to `out`.
    pub fn push_render_entries(&self, start: usize, end: usize, out: &mut Vec<RenderEntry>)
        ensures
            final(out).deep_view() == old(out).deep_view() + render_of_attr(
                self@,
                start as int,
                end as int,
            ),
    {
        let entry_count: usize = out.len();
        match self {
            TextAttr::Bold => {
                out.push(RenderEntry { attr: RenderAttr::Weight(BOLD_WEIGHT), start, end });
            },
            TextAttr::Italic => {
                out.push(RenderEntry { attr: RenderAttr::StyleItalic, start, end });
            },
            TextAttr::Underline => {
                out.push(RenderEntry { attr: RenderAttr::UnderlineSingle, start, end });
            },
            TextAttr::Strikethrough => {
                out.push(RenderEntry { attr: RenderAttr::Strikethrough(true), start, end });
            },
            TextAttr::Color(r, g, b) => {
                let fg = RenderAttr::Foreground(
                    (*r as u16) * CHANNEL_SCALE,
                    (*g as u16) * CHANNEL_SCALE,
                    (*b as u16) * CHANNEL_SCALE,
                );
                out.push(RenderEntry { attr: fg, start, end });
            },
            TextAttr::Link(_) => {
                out.push(RenderEntry {
                    attr: RenderAttr::Foreground(0, 0, MAX_INTENSITY),
                    start,
                    end,
                });
                out.push(RenderEntry { attr: RenderAttr::UnderlineSingle, start, end });
            },
            TextAttr::FontSize(size) => {
                out.push(RenderEntry {
                    attr: RenderAttr::Size((*size as i64) * RENDER_SCALE),
                    start,
                    end,
                });
            },
            TextAttr::FontFamily(family) => {
                out.push(RenderEntry { attr: RenderAttr::Family(family.clone()), start, end });
            },
        }
        proof {
            assert(out.deep_view() =~= old(out).deep_view() + render_of_attr(
                self@,
                start as int,
                end as int,
            ));
        }
    }
}

} // verus!
