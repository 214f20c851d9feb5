//! The closed set of styling attributes a span of text can carry.
//!
//! Each variant holds exactly the payload needed to render it and is
//! immutable once constructed. [`TextAttrModel`] is the mathematical model
//! of an attribute: integer channels and character sequences in place of
//! machine integers and strings.

use vstd::prelude::*;

verus! {

/// A styling attribute for a range of text.
#[derive(Debug, Clone, PartialEq)]
pub enum TextAttr {
    /// Bold face.
    Bold,
    /// Italic slant.
    Italic,
    /// A single underline.
    Underline,
    /// A line struck through the text.
    Strikethrough,
    /// A foreground colour as 8-bit red, green and blue channels.
    Color(u8, u8, u8),
    /// A link to the given target. Rendering gives links a fixed visual
    /// treatment; no navigation behaviour lives in this crate.
    Link(String),
    /// An absolute font size in points.
    FontSize(i32),
    /// A font family, passed to the renderer by name.
    FontFamily(String),
}

/// The model of a [`TextAttr`]: the same variants over `int` and
/// `Seq<char>`.
#[verifier::ext_equal]
pub ghost enum TextAttrModel {
    Bold,
    Italic,
    Underline,
    Strikethrough,
    Color(int, int, int),
    Link(Seq<char>),
    FontSize(int),
    FontFamily(Seq<char>),
}

impl View for TextAttr {
    type V = TextAttrModel;

    open spec fn view(&self) -> TextAttrModel {
        match self {
            TextAttr::Bold => TextAttrModel::Bold,
            TextAttr::Italic => TextAttrModel::Italic,
            TextAttr::Underline => TextAttrModel::Underline,
            TextAttr::Strikethrough => TextAttrModel::Strikethrough,
            TextAttr::Color(r, g, b) => TextAttrModel::Color(*r as int, *g as int, *b as int),
            TextAttr::Link(url) => TextAttrModel::Link(url@),
            TextAttr::FontSize(size) => TextAttrModel::FontSize(*size as int),
            TextAttr::FontFamily(family) => TextAttrModel::FontFamily(family@),
        }
    }
}

impl DeepView for TextAttr {
    type V = TextAttrModel;

    open spec fn deep_view(&self) -> TextAttrModel {
        self.view()
    }
}

/// The kind of a [`TextAttr`], without its payload.
#[derive(Debug, Clone, Copy, PartialEq, Eq, Structural)]
pub enum TextAttrType {
    Bold,
    Italic,
    Underline,
    Strikethrough,
    Color,
    Link,
    FontSize,
    FontFamily,
}

/// The kind of an attribute model, without its payload.
pub open spec fn attr_kind(a: TextAttrModel) -> TextAttrType {
    match a {
        TextAttrModel::Bold => TextAttrType::Bold,
        TextAttrModel::Italic => TextAttrType::Italic,
        TextAttrModel::Underline => TextAttrType::Underline,
        TextAttrModel::Strikethrough => TextAttrType::Strikethrough,
        TextAttrModel::Color(_, _, _) => TextAttrType::Color,
        TextAttrModel::Link(_) => TextAttrType::Link,
        TextAttrModel::FontSize(_) => TextAttrType::FontSize,
        TextAttrModel::FontFamily(_) => TextAttrType::FontFamily,
    }
}

impl TextAttr {
    /// The kind of this attribute.
    pub fn attr_type(&self) -> (t: TextAttrType)
        ensures
            t == attr_kind(self@),
    {
        match self {
            TextAttr::Bold => TextAttrType::Bold,
            TextAttr::Italic => TextAttrType::Italic,
            TextAttr::Underline => TextAttrType::Underline,
            TextAttr::Strikethrough => TextAttrType::Strikethrough,
            TextAttr::Color(_, _, _) => TextAttrType::Color,
            TextAttr::Link(_) => TextAttrType::Link,
            TextAttr::FontSize(_) => TextAttrType::FontSize,
            TextAttr::FontFamily(_) => TextAttrType::FontFamily,
        }
    }
}

} // verus!
