//! The document buffer: text content, attribute spans, anchors, and the
//! notification log.
//!
//! [`InlineBuffer`] owns the current text (a sequence of characters), an
//! ordered list of attribute spans, an ordered list of anchor records and
//! a monotonic anchor-id counter. Every mutation appends the notifications
//! it raises, in order, to the buffer's event log; subscribers read the
//! log instead of registering callbacks, so the exact sequence of
//! notifications is part of each operation's contract.
//!
//! The model of a buffer is [`BufferModel`]; every mutating operation is
//! specified as a transition function on it (`set_text_spec` and friends),
//! and the laws relating the operations are proved over those transitions
//! in [`crate::laws`].

use vstd::pervasive::VecAdditionalExecFns;
use vstd::prelude::*;

use crate::attrs::attr_kind;
use crate::attrs::TextAttr;
use crate::attrs::TextAttrModel;
use crate::attrs::TextAttrType;
use crate::handles::InlineAnchor;
use crate::handles::InlinePos;
use crate::render::render_of_attr;
use crate::render::RenderEntry;
use crate::render::RenderEntryModel;

verus! {

/// The reserved placeholder unit appended to the text for each anchor, so
/// that layout treats the anchored object as a single character.
pub const ANCHOR_PLACEHOLDER: char = '\u{FFFC}';

/// A reference to a paintable object held by the host.
///
/// The buffer never looks inside the paintable it is handed; it only
/// stores which one was attached, so a plain handle stands for it.
#[derive(Debug, Clone, Copy, PartialEq, Eq, Structural)]
pub struct PaintableRef {
    handle: u64,
}

impl View for PaintableRef {
    type V = int;

    closed spec fn view(&self) -> int {
        self.handle as int
    }
}

impl DeepView for PaintableRef {
    type V = int;

    open spec fn deep_view(&self) -> int {
        self.view()
    }
}

impl PaintableRef {
    /// Wrap a host-side paintable handle.
    pub fn new(handle: u64) -> (p: PaintableRef)
        ensures
            p@ == handle,
    {
        PaintableRef { handle }
    }

    /// The host-side handle this reference records.
    pub fn handle(&self) -> (h: u64)
        ensures
            h == self@,
    {
        self.handle
    }
}

/// A notification raised by a buffer mutation.
///
/// Delivery is synchronous and ordered: the events of one call stand in
/// the log in the order they were raised, before anything a later call
/// raises.
#[derive(Debug, Clone, Copy, PartialEq, Eq, Structural)]
pub enum BufferEvent {
    /// The buffer content changed.
    Changed,
    /// An attribute of the given kind was applied over the given range.
    AttributeAdded(TextAttrType, InlinePos, InlinePos),
    /// An anchor was created at the given position.
    AnchorCreated(InlineAnchor, InlinePos),
    /// A paintable was attached to the given anchor.
    PaintableInserted(InlineAnchor),
}

/// The model of a [`BufferEvent`].
#[verifier::ext_equal]
pub ghost enum EventModel {
    Changed,
    AttributeAdded(TextAttrType, int, int),
    AnchorCreated(int, int),
    PaintableInserted(int),
}

impl View for BufferEvent {
    type V = EventModel;

    open spec fn view(&self) -> EventModel {
        match self {
            BufferEvent::Changed => EventModel::Changed,
            BufferEvent::AttributeAdded(kind, start, end) => EventModel::AttributeAdded(
                *kind,
                start@,
                end@,
            ),
            BufferEvent::AnchorCreated(anchor, pos) => EventModel::AnchorCreated(anchor@, pos@),
            BufferEvent::PaintableInserted(anchor) => EventModel::PaintableInserted(anchor@),
        }
    }
}

impl DeepView for BufferEvent {
    type V = EventModel;

    open spec fn deep_view(&self) -> EventModel {
        self.view()
    }
}

/// A stored attribute with the half-open range it covers.
#[derive(Debug, Clone)]
struct AttributeSpan {
    attr: TextAttr,
    start: InlinePos,
    end: InlinePos,
}

/// The model of a stored attribute span.
#[verifier::ext_equal]
pub ghost struct SpanModel {
    pub attr: TextAttrModel,
    pub start: int,
    pub end: int,
}

impl DeepView for AttributeSpan {
    type V = SpanModel;

    closed spec fn deep_view(&self) -> SpanModel {
        SpanModel { attr: self.attr@, start: self.start@, end: self.end@ }
    }
}

/// A stored anchor record.
#[derive(Debug, Clone, Copy)]
struct AnchorData {
    id: usize,
    pos: InlinePos,
    paintable: Option<PaintableRef>,
}

/// The model of a stored anchor record: its identity, the position
/// recorded at creation time, and the attached paintable, if any.
#[verifier::ext_equal]
pub ghost struct AnchorModel {
    pub id: int,
    pub pos: int,
    pub paintable: Option<int>,
}

impl DeepView for AnchorData {
    type V = AnchorModel;

    closed spec fn deep_view(&self) -> AnchorModel {
        AnchorModel {
            id: self.id as int,
            pos: self.pos@,
            paintable: match self.paintable {
                Some(p) => Some(p@),
                None => None,
            },
        }
    }
}

/// The model of a whole buffer.
#[verifier::ext_equal]
pub ghost struct BufferModel {
    pub text: Seq<char>,
    pub spans: Seq<SpanModel>,
    pub anchors: Seq<AnchorModel>,
    pub next_anchor_id: int,
    pub events: Seq<EventModel>,
}

/// The buffer invariant: anchor identities strictly increase along the
/// record list (so each identity occurs at most once), every identity is
/// below the counter, and every recorded anchor position lies within the
/// current text. New buffers establish it and every operation preserves
/// it; [`crate::laws`] proves the preservation.
pub open spec fn buffer_wf(m: BufferModel) -> bool {
    &&& 0 <= m.next_anchor_id
    &&& forall|i: int, j: int|
        0 <= i < j < m.anchors.len() ==> m.anchors[i].id < m.anchors[j].id
    &&& forall|i: int| 0 <= i < m.anchors.len() ==> #[trigger] m.anchors[i].id < m.next_anchor_id
    &&& forall|i: int|
        0 <= i < m.anchors.len() ==> 0 <= #[trigger] m.anchors[i].pos <= m.text.len()
}

/// The model of a freshly created buffer.
pub open spec fn new_buffer_model() -> BufferModel {
    BufferModel {
        text: Seq::empty(),
        spans: Seq::empty(),
        anchors: Seq::empty(),
        next_anchor_id: 0,
        events: Seq::empty(),
    }
}

/// Replacing the content wholesale: the text becomes `text`, spans and
/// anchors are discarded, the identity counter keeps counting, and one
/// `Changed` is raised.
pub open spec fn set_text_spec(m: BufferModel, text: Seq<char>) -> BufferModel {
    BufferModel {
        text,
        spans: Seq::empty(),
        anchors: Seq::empty(),
        next_anchor_id: m.next_anchor_id,
        events: m.events.push(EventModel::Changed),
    }
}

/// Appending text: everything else stays, and one `Changed` is raised.
pub open spec fn push_str_spec(m: BufferModel, text: Seq<char>) -> BufferModel {
    BufferModel {
        text: m.text + text,
        spans: m.spans,
        anchors: m.anchors,
        next_anchor_id: m.next_anchor_id,
        events: m.events.push(EventModel::Changed),
    }
}

/// Applying an attribute: the span is appended as given — inverted or
/// out-of-range bounds included, the buffer validates nothing — and
/// `AttributeAdded` then `Changed` are raised, in that order.
pub open spec fn apply_attribute_spec(
    m: BufferModel,
    start: int,
    end: int,
    attr: TextAttrModel,
) -> BufferModel {
    BufferModel {
        text: m.text,
        spans: m.spans.push(SpanModel { attr, start, end }),
        anchors: m.anchors,
        next_anchor_id: m.next_anchor_id,
        events: m.events.push(EventModel::AttributeAdded(attr_kind(attr), start, end)).push(
            EventModel::Changed,
        ),
    }
}

/// Creating an anchor: exactly one placeholder unit is appended to the
/// text, a record with the next identity and the position just after the
/// placeholder is appended, the counter advances, and the append's
/// `Changed` is raised before `AnchorCreated`.
pub open spec fn push_anchor_spec(m: BufferModel) -> BufferModel {
    let text = m.text.push(ANCHOR_PLACEHOLDER);
    let pos = text.len() as int;
    BufferModel {
        text,
        spans: m.spans,
        anchors: m.anchors.push(AnchorModel { id: m.next_anchor_id, pos, paintable: None }),
        next_anchor_id: m.next_anchor_id + 1,
        events: m.events.push(EventModel::Changed).push(
            EventModel::AnchorCreated(m.next_anchor_id, pos),
        ),
    }
}

/// The index of the first anchor record with the given identity, looking
/// from position `i` on; `-1` when there is none.
pub open spec fn first_anchor_index_from(anchors: Seq<AnchorModel>, id: int, i: int) -> int
    decreases anchors.len() - i,
{
    if i < 0 || i >= anchors.len() {
        -1
    } else if anchors[i].id == id {
        i
    } else {
        first_anchor_index_from(anchors, id, i + 1)
    }
}

/// The index of the first anchor record with the given identity; `-1`
/// when there is none.
pub open spec fn first_anchor_index(anchors: Seq<AnchorModel>, id: int) -> int {
    first_anchor_index_from(anchors, id, 0)
}

/// Attaching a paintable: when the identity exists, the first record with
/// it gets the paintable (re-attachment overwrites) and
/// `PaintableInserted` then `Changed` are raised, in that order; when it
/// does not, nothing changes and nothing is raised.
pub open spec fn attach_payload_spec(m: BufferModel, id: int, payload: int) -> BufferModel {
    let k = first_anchor_index(m.anchors, id);
    if k >= 0 {
        let a = m.anchors[k];
        BufferModel {
            text: m.text,
            spans: m.spans,
            anchors: m.anchors.update(
                k,
                AnchorModel { id: a.id, pos: a.pos, paintable: Some(payload) },
            ),
            next_anchor_id: m.next_anchor_id,
            events: m.events.push(EventModel::PaintableInserted(id)).push(EventModel::Changed),
        }
    } else {
        m
    }
}

/// Clearing: text, spans and anchors are all emptied, the counter keeps
/// counting, and — unlike replacing the text with the empty sequence —
/// no event at all is raised.
pub open spec fn clear_spec(m: BufferModel) -> BufferModel {
    BufferModel {
        text: Seq::empty(),
        spans: Seq::empty(),
        anchors: Seq::empty(),
        next_anchor_id: m.next_anchor_id,
        events: m.events,
    }
}

/// The full render list of a span list: each span's primitives in span
/// order. Spans are neither merged, deduplicated nor reordered; overlap
/// resolution belongs to the backend.
pub open spec fn render_attrs(spans: Seq<SpanModel>) -> Seq<RenderEntryModel>
    decreases spans.len(),
{
    if spans.len() == 0 {
        Seq::empty()
    } else {
        render_attrs(spans.drop_last()) + render_of_attr(
            spans.last().attr,
            spans.last().start,
            spans.last().end,
        )
    }
}

/// The document buffer. See the module documentation.
pub struct InlineBuffer {
    text: Vec<char>,
    attributes: Vec<AttributeSpan>,
    anchors: Vec<AnchorData>,
    next_anchor_id: usize,
    events: Vec<BufferEvent>,
}

impl View for InlineBuffer {
    type V = BufferModel;

    closed spec fn view(&self) -> BufferModel {
        BufferModel {
            text: self.text@,
            spans: self.attributes.deep_view(),
            anchors: self.anchors.deep_view(),
            next_anchor_id: self.next_anchor_id as int,
            events: self.events.deep_view(),
        }
    }
}

/// Finds the first record with the given identity.
fn find_anchor(anchors: &Vec<AnchorData>, id: usize) -> (r: Option<usize>)
    ensures
        r is Some <==> first_anchor_index(anchors.deep_view(), id as int) >= 0,
        r matches Some(i) ==> i < anchors.len() && i as int == first_anchor_index(
            anchors.deep_view(),
            id as int,
        ),
{
    let ghost dv = anchors.deep_view();
    let mut i: usize = 0;
    while i < anchors.len()
        invariant
            i <= anchors.len(),
            dv == anchors.deep_view(),
            first_anchor_index(dv, id as int) == first_anchor_index_from(dv, id as int, i as int),
        decreases anchors.len() - i,
    {
        if anchors[i].id == id {
            return Some(i);
        }
        i += 1;
    }
    None
}

impl InlineBuffer {
    /// Create a new empty buffer.
    pub fn new() -> (b: InlineBuffer)
        ensures
            b@ == new_buffer_model(),
    {
        let b = InlineBuffer {
            text: Vec::new(),
            attributes: Vec::new(),
            anchors: Vec::new(),
            next_anchor_id: 0,
            events: Vec::new(),
        };
        proof {
            assert(b@ =~~= new_buffer_model());
        }
        b
    }

    /// The current text content.
    pub fn text(&self) -> (t: &Vec<char>)
        ensures
            t@ == self@.text,
    {
        &self.text
    }

    /// The notifications raised so far, oldest first.
    pub fn events(&self) -> (e: &Vec<BufferEvent>)
        ensures
            e.deep_view() == self@.events,
    {
        &self.events
    }

    /// Replace the content wholesale; discards all attribute spans and
    /// anchor records and raises one `Changed`.
    pub fn set_text(&mut self, text: Vec<char>)
        ensures
            final(self)@ == set_text_spec(old(self)@, text@),
    {
        self.text = text;
        self.attributes = Vec::new();
        self.anchors = Vec::new();
        self.events.push(BufferEvent::Changed);
        proof {
            assert(self@ =~~= set_text_spec(old(self)@, self.text@));
        }
    }

    /// Whether the current text is empty.
    pub fn is_empty(&self) -> (r: bool)
        ensures
            r == (self@.text.len() == 0),
    {
        self.text.len() == 0
    }

    /// Append text and return the position at the new end of the content;
    /// raises one `Changed`.
    pub fn push_str(&mut self, text: &[char]) -> (p: InlinePos)
        ensures
            final(self)@ == push_str_spec(old(self)@, text@),
            p@ == final(self)@.text.len(),
    {
        let mut i: usize = 0;
        while i < text.len()
            invariant
                i <= text.len(),
                self.text@ == old(self).text@ + text@.subrange(0, i as int),
                self.attributes == old(self).attributes,
                self.anchors == old(self).anchors,
                self.next_anchor_id == old(self).next_anchor_id,
                self.events == old(self).events,
            decreases text.len() - i,
        {
            self.text.push(text[i]);
            proof {
                assert(self.text@ =~= old(self).text@ + text@.subrange(0, i as int + 1));
            }
            i += 1;
        }
        let pos = InlinePos::new(self.text.len());
        self.events.push(BufferEvent::Changed);
        proof {
            assert(text@.subrange(0, text@.len() as int) =~= text@);
            assert(self@ =~~= push_str_spec(old(self)@, text@));
        }
        pos
    }

    /// Apply an attribute over `[start, end)`. The range is stored as
    /// given — nothing checks that `start <= end` or that either lies
    /// within the content. Raises `AttributeAdded` then `Changed`.
    pub fn apply_attribute(&mut self, start: InlinePos, end: InlinePos, attr: TextAttr)
        ensures
            final(self)@ == apply_attribute_spec(old(self)@, start@, end@, attr@),
    {
        let kind = attr.attr_type();
        let ghost attr_model = attr@;
        self.attributes.push(AttributeSpan { attr, start, end });
        self.events.push(BufferEvent::AttributeAdded(kind, start, end));
        self.events.push(BufferEvent::Changed);
        proof {
            assert(self@ =~~= apply_attribute_spec(old(self)@, start@, end@, attr_model));
        }
    }

    /// Create an anchor: appends one placeholder unit to the text,
    /// records a fresh identity with the position just after the
    /// placeholder, and raises the append's `Changed` followed by
    /// `AnchorCreated`. Returns the new handle.
    pub fn push_anchor(&mut self) -> (a: InlineAnchor)
        requires
            old(self)@.next_anchor_id < usize::MAX,
        ensures
            final(self)@ == push_anchor_spec(old(self)@),
            a@ == old(self)@.next_anchor_id,
    {
        let id = self.next_anchor_id;
        self.next_anchor_id = id + 1;
        self.text.push(ANCHOR_PLACEHOLDER);
        self.events.push(BufferEvent::Changed);
        let pos = InlinePos::new(self.text.len());
        self.anchors.push(AnchorData { id, pos, paintable: None });
        let anchor = InlineAnchor::new(id);
        self.events.push(BufferEvent::AnchorCreated(anchor, pos));
        proof {
            assert(self@ =~~= push_anchor_spec(old(self)@));
        }
        anchor
    }

    /// Attach a paintable to an anchor. When the identity was never
    /// issued, or its record was discarded by a reset, this is a silent
    /// no-op: no error, no event. Otherwise the record keeps the
    /// paintable (re-attachment overwrites) and `PaintableInserted` then
    /// `Changed` are raised.
    pub fn insert_paintable_at_anchor(&mut self, anchor: InlineAnchor, paintable: PaintableRef)
        ensures
            final(self)@ == attach_payload_spec(old(self)@, anchor@, paintable@),
    {
        match find_anchor(&self.anchors, anchor.id()) {
            Some(i) => {
                let record = self.anchors[i];
                self.anchors.set(
                    i,
                    AnchorData { id: record.id, pos: record.pos, paintable: Some(paintable) },
                );
                self.events.push(BufferEvent::PaintableInserted(anchor));
                self.events.push(BufferEvent::Changed);
                proof {
                    let k = first_anchor_index(old(self)@.anchors, anchor@);
                    assert(self.anchors.deep_view() =~= old(self)@.anchors.update(
                        k,
                        AnchorModel {
                            id: old(self)@.anchors[k].id,
                            pos: old(self)@.anchors[k].pos,
                            paintable: Some(paintable@),
                        },
                    ));
                    assert(self@ =~~= attach_payload_spec(old(self)@, anchor@, paintable@));
                }
            },
            None => {
                proof {
                    assert(self@ =~~= attach_payload_spec(old(self)@, anchor@, paintable@));
                }
            },
        }
    }

    /// The position recorded for an anchor, or `None` when its identity
    /// is unknown.
    pub fn get_anchor_position(&self, anchor: InlineAnchor) -> (r: Option<InlinePos>)
        ensures
            r is Some <==> first_anchor_index(self@.anchors, anchor@) >= 0,
            r matches Some(p) ==> p@ == self@.anchors[first_anchor_index(
                self@.anchors,
                anchor@,
            )].pos,
    {
        match find_anchor(&self.anchors, anchor.id()) {
            Some(i) => Some(self.anchors[i].pos),
            None => None,
        }
    }

    /// The position at offset zero.
    pub fn start_pos(&self) -> (p: InlinePos)
        ensures
            p@ == 0,
    {
        InlinePos::new(0)
    }

    /// The position at the current end of the content.
    pub fn current_pos(&self) -> (p: InlinePos)
        ensures
            p@ == self@.text.len(),
    {
        InlinePos::new(self.text.len())
    }

    /// Empty text, spans and anchors at once. Unlike replacing the text
    /// with empty content, this raises no event at all.
    pub fn clear(&mut self)
        ensures
            final(self)@ == clear_spec(old(self)@),
    {
        self.text.clear();
        self.attributes.clear();
        self.anchors.clear();
        proof {
            assert(self@ =~~= clear_spec(old(self)@));
        }
    }

    /// Translate the stored spans into the backend's primitive attribute
    /// list. The list is recomputed fresh from the spans on every call,
    /// in span order.
    pub fn build_render_attributes(&self) -> (r: Vec<RenderEntry>)
        ensures
            r.deep_view() == render_attrs(self@.spans),
    {
        let ghost spans = self@.spans;
        let mut out: Vec<RenderEntry> = Vec::new();
        proof {
            assert(out.deep_view() =~= render_attrs(spans.take(0)));
        }
        let mut i: usize = 0;
        while i < self.attributes.len()
            invariant
                i <= self.attributes.len(),
                spans == self@.spans,
                out.deep_view() == render_attrs(spans.take(i as int)),
            decreases self.attributes.len() - i,
        {
            let span = &self.attributes[i];
            span.attr.push_render_entries(span.start.offset(), span.end.offset(), &mut out);
            proof {
                assert(spans.take(i as int + 1).drop_last() =~= spans.take(i as int));
                assert(spans.take(i as int + 1).last() == spans[i as int]);
            }
            i += 1;
        }
        proof {
            assert(spans.take(self.attributes.len() as int) =~= spans);
        }
        out
    }
}

impl Default for InlineBuffer {
    /// Same as [`InlineBuffer::new`].
    fn default() -> (b: Self)
        ensures
            b@ == new_buffer_model(),
    {
        InlineBuffer::new()
    }
}

} // verus!
