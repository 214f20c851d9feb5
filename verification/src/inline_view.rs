//! The lazy layout view: holds at most one buffer, caches a derived
//! layout, and rebuilds it only when needed.
//!
//! The view never does layout work inside a mutation. New text marks the
//! view dirty; attaching or detaching a buffer marks it dirty and drops
//! the cached layout outright, with no carry-over from the previous
//! subscription. The next measurement or paint request pulls the buffer's
//! current text and render attributes into a fresh [`LayoutState`]. The
//! wrap width is tracked independently
//! of content dirtiness: when only the available width changed, the width
//! is reapplied to the cached layout without a content rebuild.
//!
//! The actual paragraph layout object — word-then-character wrapping,
//! extents, painting — belongs to the host's rendering backend. The view
//! records what that object was built from ([`LayoutState`]) and decides
//! when it must be reconstructed; the host performs the construction,
//! reports extents, and receives measurements through
//! [`InlineView::measure_size`].

use vstd::prelude::*;

use crate::buffer::new_buffer_model;
use crate::buffer::render_attrs;
use crate::buffer::set_text_spec;
use crate::buffer::BufferModel;
use crate::buffer::InlineBuffer;
use crate::render::RenderEntry;
use crate::render::RenderEntryModel;
use crate::render::RENDER_SCALE;

verus! {

/// The measurement axis a host asks about.
#[derive(Debug, Clone, Copy, PartialEq, Eq, Structural)]
pub enum Orientation {
    Horizontal,
    Vertical,
}

/// The width value of a layout that no width has been assigned to: the
/// backend then lays the text out without a wrapping bound.
pub const WIDTH_UNSET: i64 = -1;

/// The wrap configuration the host must apply to the backend layout.
#[derive(Debug, Clone, Copy, PartialEq, Eq, Structural)]
pub enum WrapMode {
    /// Wrap at word boundaries, falling back to breaking within a word
    /// when a single word exceeds the width.
    WordChar,
}

/// What the cached backend layout was built from: a snapshot of the
/// buffer's text and render attributes, the wrap configuration, and the
/// width currently assigned to the layout, in the backend's fixed-point
/// units.
pub struct LayoutState {
    text: Vec<char>,
    attrs: Vec<RenderEntry>,
    wrap: WrapMode,
    width: i64,
}

/// The model of a [`LayoutState`].
#[verifier::ext_equal]
pub ghost struct LayoutModel {
    pub text: Seq<char>,
    pub attrs: Seq<RenderEntryModel>,
    pub wrap: WrapMode,
    pub width: int,
}

impl View for LayoutState {
    type V = LayoutModel;

    closed spec fn view(&self) -> LayoutModel {
        LayoutModel {
            text: self.text@,
            attrs: self.attrs.deep_view(),
            wrap: self.wrap,
            width: self.width as int,
        }
    }
}

/// What one measurement pass did: whether the cached layout was rebuilt
/// from the buffer, and whether a new wrap width was assigned to it.
#[derive(Debug, Clone, Copy, PartialEq, Eq, Structural)]
pub struct LayoutUpdate {
    pub rebuilt: bool,
    pub width_set: bool,
}

/// The model of an [`InlineView`].
#[verifier::ext_equal]
pub ghost struct ViewModel {
    pub buffer: Option<BufferModel>,
    pub needs_update: bool,
    pub layout: Option<LayoutModel>,
}

/// The model of the buffer slot.
pub open spec fn opt_buffer_model(b: Option<InlineBuffer>) -> Option<BufferModel> {
    match b {
        Some(buffer) => Some(buffer@),
        None => None,
    }
}

/// Attaching a buffer (or detaching, with `None`): the slot is replaced —
/// the previous subscription is fully released, its cached layout
/// discarded with no carry-over — and the view is marked dirty.
pub open spec fn set_buffer_spec(v: ViewModel, b: Option<BufferModel>) -> ViewModel {
    ViewModel { buffer: b, needs_update: true, layout: None }
}

/// Setting text through the view: forwards to the attached buffer, or
/// creates a fresh buffer first when none is attached, and marks the view
/// dirty either way.
pub open spec fn view_set_text_spec(v: ViewModel, text: Seq<char>) -> ViewModel {
    let base = match v.buffer {
        Some(b) => b,
        None => new_buffer_model(),
    };
    ViewModel { buffer: Some(set_text_spec(base, text)), needs_update: true, layout: v.layout }
}

/// Rebuilding the cached layout: a fresh snapshot of the buffer's text
/// and render attributes, configured for word-then-character wrapping,
/// with no width assigned yet; or no layout at all when no buffer is
/// attached.
pub open spec fn rebuild_spec(v: ViewModel) -> ViewModel {
    ViewModel {
        buffer: v.buffer,
        needs_update: v.needs_update,
        layout: match v.buffer {
            Some(b) => Some(
                LayoutModel {
                    text: b.text,
                    attrs: render_attrs(b.spans),
                    wrap: WrapMode::WordChar,
                    width: WIDTH_UNSET as int,
                },
            ),
            None => None,
        },
    }
}

/// One measurement pass. The cache is rebuilt exactly when the view was
/// dirty, and the dirty flag is consumed. Then, for a vertical request
/// with a positive available width that differs from the layout's current
/// width, the new width is assigned — a reflow, not a content rebuild.
pub open spec fn update_layout_spec(v: ViewModel, orientation: Orientation, for_size: i32) -> (
    ViewModel,
    LayoutUpdate,
) {
    let rebuilt = v.needs_update;
    let v1 = if rebuilt {
        ViewModel { buffer: v.buffer, needs_update: false, layout: rebuild_spec(v).layout }
    } else {
        v
    };
    let width_set = orientation is Vertical && for_size > 0 && (v1.layout matches Some(l)
        && l.width != for_size * RENDER_SCALE as int);
    let v2 = if width_set {
        match v1.layout {
            Some(l) => ViewModel {
                buffer: v1.buffer,
                needs_update: v1.needs_update,
                layout: Some(
                    LayoutModel {
                        text: l.text,
                        attrs: l.attrs,
                        wrap: l.wrap,
                        width: for_size * RENDER_SCALE as int,
                    },
                ),
            },
            None => v1,
        }
    } else {
        v1
    };
    (v2, LayoutUpdate { rebuilt, width_set })
}

/// Preparing to paint at the given widget width: when a layout is cached
/// and its width differs from the widget's, the widget's width is
/// reapplied; without a cached layout nothing happens.
pub open spec fn prepare_snapshot_spec(v: ViewModel, widget_width: i32) -> (ViewModel, bool) {
    match v.layout {
        Some(l) => {
            if l.width != widget_width * RENDER_SCALE as int {
                (
                    ViewModel {
                        buffer: v.buffer,
                        needs_update: v.needs_update,
                        layout: Some(
                            LayoutModel {
                                text: l.text,
                                attrs: l.attrs,
                                wrap: l.wrap,
                                width: widget_width * RENDER_SCALE as int,
                            },
                        ),
                    },
                    true,
                )
            } else {
                (v, false)
            }
        },
        None => (v, false),
    }
}

/// The (minimum, natural) size pair for backend-reported extents: without
/// a cached layout both are zero; horizontally the natural size is the
/// layout width scaled back to plain units; vertically both are the
/// scaled-back height.
pub open spec fn measure_spec(
    v: ViewModel,
    orientation: Orientation,
    extent_w: int,
    extent_h: int,
) -> (int, int) {
    if v.layout is None {
        (0, 0)
    } else {
        match orientation {
            Orientation::Horizontal => (0, extent_w / (RENDER_SCALE as int)),
            Orientation::Vertical => (
                extent_h / (RENDER_SCALE as int),
                extent_h / (RENDER_SCALE as int),
            ),
        }
    }
}

/// Copy a character vector.
fn clone_chars(v: &Vec<char>) -> (r: Vec<char>)
    ensures
        r@ == v@,
{
    let mut r: Vec<char> = Vec::new();
    let mut i: usize = 0;
    while i < v.len()
        invariant
            i <= v.len(),
            r@ == v@.subrange(0, i as int),
        decreases v.len() - i,
    {
        r.push(v[i]);
        proof {
            assert(r@ =~= v@.subrange(0, i as int + 1));
        }
        i += 1;
    }
    proof {
        assert(v@.subrange(0, v@.len() as int) =~= v@);
    }
    r
}

/// The lazy layout view. See the module documentation.
pub struct InlineView {
    buffer: Option<InlineBuffer>,
    needs_update: bool,
    layout: Option<LayoutState>,
}

impl View for InlineView {
    type V = ViewModel;

    closed spec fn view(&self) -> ViewModel {
        ViewModel {
            buffer: match self.buffer {
                Some(b) => Some(b@),
                None => None,
            },
            needs_update: self.needs_update,
            layout: match self.layout {
                Some(l) => Some(l@),
                None => None,
            },
        }
    }
}

impl InlineView {
    /// Create a view with no buffer attached: clean and without a cached
    /// layout, so a measurement yields zero sizes.
    pub fn new() -> (v: InlineView)
        ensures
            v@ == (ViewModel { buffer: None, needs_update: false, layout: None }),
    {
        InlineView { buffer: None, needs_update: false, layout: None }
    }

    /// Attach a buffer, or detach with `None`. Replaces — and thereby
    /// fully releases — any previous subscription, discards its cached
    /// layout, and marks the view dirty, so the next measurement rebuilds
    /// from the new buffer.
    pub fn set_buffer(&mut self, buffer: Option<InlineBuffer>)
        ensures
            final(self)@ == set_buffer_spec(old(self)@, opt_buffer_model(buffer)),
    {
        self.buffer = buffer;
        self.layout = None;
        self.needs_update = true;
    }

    /// Detach and return the attached buffer, if any: the counterpart of
    /// [`InlineView::set_buffer`] for a host that wants to mutate the
    /// displayed buffer and hand it back. The view is left detached,
    /// without a cached layout, and dirty.
    pub fn take_buffer(&mut self) -> (b: Option<InlineBuffer>)
        ensures
            final(self)@ == set_buffer_spec(old(self)@, None),
            opt_buffer_model(b) == old(self)@.buffer,
    {
        let b = self.buffer.take();
        self.layout = None;
        self.needs_update = true;
        b
    }

    /// Read access to the attached buffer, if any, for subscribers that
    /// want its text, events or anchor positions without detaching it.
    pub fn buffer(&self) -> (b: Option<&InlineBuffer>)
        ensures
            (b is Some) <==> (self@.buffer is Some),
            b matches Some(r) ==> (self@.buffer matches Some(m) && r@ == m),
    {
        match &self.buffer {
            Some(b) => Some(b),
            None => None,
        }
    }

    /// The attached buffer's text, or empty text when none is attached.
    pub fn get_text(&self) -> (t: Vec<char>)
        ensures
            t@ == match self@.buffer {
                Some(b) => b.text,
                None => Seq::<char>::empty(),
            },
    {
        match &self.buffer {
            Some(b) => clone_chars(b.text()),
            None => {
                let t: Vec<char> = Vec::new();
                proof {
                    assert(t@ =~= Seq::<char>::empty());
                }
                t
            },
        }
    }

    /// Set the text: forwards to the attached buffer, or creates one —
    /// the only place the view ever creates a buffer — and marks the view
    /// dirty.
    pub fn set_text(&mut self, text: Vec<char>)
        ensures
            final(self)@ == view_set_text_spec(old(self)@, text@),
    {
        match &mut self.buffer {
            Some(b) => {
                b.set_text(text);
            },
            None => {
                let mut b = InlineBuffer::new();
                b.set_text(text);
                self.buffer = Some(b);
            },
        }
        self.needs_update = true;
    }

    /// Rebuild the cached layout from the attached buffer's current
    /// state, or drop it when no buffer is attached.
    fn rebuild_layout(&mut self)
        ensures
            final(self)@ == rebuild_spec(old(self)@),
    {
        match &self.buffer {
            Some(b) => {
                let text = clone_chars(b.text());
                let attrs = b.build_render_attributes();
                self.layout = Some(
                    LayoutState { text, attrs, wrap: WrapMode::WordChar, width: WIDTH_UNSET },
                );
            },
            None => {
                self.layout = None;
            },
        }
        proof {
            assert(self@ =~~= rebuild_spec(old(self)@));
        }
    }

    /// One measurement pass: rebuild the cache if the view is dirty, then
    /// reapply the width for a vertical request when the available width
    /// changed. Returns what was done; the host then reads the (possibly
    /// fresh) layout's extents and passes them to
    /// [`InlineView::measure_size`].
    pub fn update_layout(&mut self, orientation: Orientation, for_size: i32) -> (r: LayoutUpdate)
        ensures
            final(self)@ == update_layout_spec(old(self)@, orientation, for_size).0,
            r == update_layout_spec(old(self)@, orientation, for_size).1,
    {
        let rebuilt = self.needs_update;
        if rebuilt {
            self.rebuild_layout();
            self.needs_update = false;
        }
        let mut width_set = false;
        match &mut self.layout {
            Some(l) => {
                if orientation == Orientation::Vertical && for_size > 0 {
                    let target = (for_size as i64) * RENDER_SCALE;
                    if l.width != target {
                        l.width = target;
                        width_set = true;
                    }
                }
            },
            None => {},
        }
        proof {
            assert(self@ =~~= update_layout_spec(old(self)@, orientation, for_size).0);
        }
        LayoutUpdate { rebuilt, width_set }
    }

    /// The (minimum, natural) size pair for the extents the backend
    /// reports for the cached layout; (0, 0) when nothing is cached.
    pub fn measure_size(&self, orientation: Orientation, extent_w: u64, extent_h: u64) -> (r: (
        u64,
        u64,
    ))
        ensures
            r.0 == measure_spec(self@, orientation, extent_w as int, extent_h as int).0,
            r.1 == measure_spec(self@, orientation, extent_w as int, extent_h as int).1,
    {
        match &self.layout {
            Some(_) => {
                match orientation {
                    Orientation::Horizontal => (0, extent_w / (RENDER_SCALE as u64)),
                    Orientation::Vertical => {
                        let h = extent_h / (RENDER_SCALE as u64);
                        (h, h)
                    },
                }
            },
            None => (0, 0),
        }
    }

    /// Prepare to paint at the given widget width: reapplies the width to
    /// the cached layout when it differs; a no-op without a cached
    /// layout. Returns whether the width was reapplied.
    pub fn prepare_snapshot(&mut self, widget_width: i32) -> (r: bool)
        ensures
            final(self)@ == prepare_snapshot_spec(old(self)@, widget_width).0,
            r == prepare_snapshot_spec(old(self)@, widget_width).1,
    {
        let mut applied = false;
        match &mut self.layout {
            Some(l) => {
                let target = (widget_width as i64) * RENDER_SCALE;
                if l.width != target {
                    l.width = target;
                    applied = true;
                }
            },
            None => {},
        }
        proof {
            assert(self@ =~~= prepare_snapshot_spec(old(self)@, widget_width).0);
        }
        applied
    }

    /// Whether a layout is currently cached.
    pub fn has_layout(&self) -> (r: bool)
        ensures
            r == (self@.layout is Some),
    {
        match &self.layout {
            Some(_) => true,
            None => false,
        }
    }

    /// The width currently assigned to the cached layout, if any.
    pub fn layout_width(&self) -> (r: Option<i64>)
        ensures
            (r is Some) <==> (self@.layout is Some),
            r matches Some(w) ==> (self@.layout matches Some(l) && w == l.width),
    {
        match &self.layout {
            Some(l) => Some(l.width),
            None => None,
        }
    }

    /// The wrap configuration of the cached layout, if any: the host
    /// applies it to the backend layout it constructs.
    pub fn layout_wrap(&self) -> (r: Option<WrapMode>)
        ensures
            (r is Some) <==> (self@.layout is Some),
            r matches Some(w) ==> (self@.layout matches Some(l) && w == l.wrap),
    {
        match &self.layout {
            Some(l) => Some(l.wrap),
            None => None,
        }
    }

    /// The text snapshot the cached layout was built from, if any.
    pub fn layout_text(&self) -> (r: Option<&Vec<char>>)
        ensures
            (r is Some) <==> (self@.layout is Some),
            r matches Some(t) ==> (self@.layout matches Some(l) && t@ == l.text),
    {
        match &self.layout {
            Some(l) => Some(&l.text),
            None => None,
        }
    }

    /// Whether the view is dirty: the next measurement will rebuild.
    pub fn is_dirty(&self) -> (r: bool)
        ensures
            r == self@.needs_update,
    {
        self.needs_update
    }
}

impl Default for InlineView {
    /// Same as [`InlineView::new`].
    fn default() -> (v: Self)
        ensures
            v@ == (ViewModel { buffer: None, needs_update: false, layout: None }),
    {
        InlineView::new()
    }
}

} // verus!
