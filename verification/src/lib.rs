//! An inline rich-text document model with a paired lazy layout view.
//!
//! The heart of the crate is [`buffer::InlineBuffer`]: a mutable text buffer
//! that tracks character ranges tagged with styling attributes and
//! out-of-band anchor points where a host may later attach paintable
//! content. Every mutation appends the notifications it raises to an
//! ordered event log, so subscribers and tests can observe exactly what
//! was announced and in which order.
//!
//! [`inline_view::InlineView`] consumes one buffer at a time. It caches a
//! derived layout, marks itself dirty on changes, and rebuilds the cache
//! only when the next measurement or paint request arrives. The actual
//! word-wrapping and pixel work belongs to the host's rendering backend;
//! this crate decides *when* to rebuild, *what* the layout is built from,
//! and how backend-reported extents translate into measurements.
//!
//! Each data type has a mathematical model (`handles`, `attrs`, `render`,
//! `buffer`, `inline_view` declare them next to the types), every public
//! operation is specified as a transition on those models, and the laws
//! that relate the operations are proved in [`laws`].

pub mod attrs;
pub mod buffer;
pub mod handles;
pub mod inline_view;
pub mod laws;
pub mod render;

pub use attrs::TextAttr;
pub use attrs::TextAttrType;
pub use buffer::BufferEvent;
pub use buffer::InlineBuffer;
pub use buffer::PaintableRef;
pub use handles::InlineAnchor;
pub use handles::InlinePos;
pub use inline_view::InlineView;
pub use inline_view::LayoutUpdate;
pub use inline_view::Orientation;
pub use inline_view::WrapMode;
pub use render::RenderAttr;
pub use render::RenderEntry;
