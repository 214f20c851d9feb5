//! The laws of the document model and the view, proved once and for all
//! over the transition specifications.
//!
//! Every executable operation's contract pins its result down as a
//! transition on the models ([`crate::buffer::BufferModel`],
//! [`crate::inline_view::ViewModel`]); the proof functions here state how
//! those transitions relate to each other — what is discarded, what is
//! raised, what stays untouched — so a caller can compose operations and
//! know the outcome without unfolding any definitions.

use vstd::prelude::*;

use crate::attrs::TextAttrModel;
use crate::buffer::apply_attribute_spec;
use crate::buffer::attach_payload_spec;
use crate::buffer::buffer_wf;
use crate::buffer::clear_spec;
use crate::buffer::first_anchor_index;
use crate::buffer::first_anchor_index_from;
use crate::buffer::new_buffer_model;
use crate::buffer::push_anchor_spec;
use crate::buffer::push_str_spec;
use crate::buffer::render_attrs;
use crate::buffer::set_text_spec;
use crate::buffer::AnchorModel;
use crate::buffer::BufferModel;
use crate::buffer::EventModel;
use crate::buffer::SpanModel;
use crate::buffer::ANCHOR_PLACEHOLDER;
use crate::inline_view::update_layout_spec;
use crate::inline_view::Orientation;
use crate::inline_view::ViewModel;
use crate::render::render_of_attr;
use crate::render::RENDER_SCALE;

verus! {

// ---------------------------------------------------------------------
// Text replacement and clearing
// ---------------------------------------------------------------------

/// Law: after a wholesale text replacement the buffer holds exactly the
/// new text — so it is empty precisely when the new text is empty, and
/// the end position (which `current_pos` reports) equals the new text's
/// length.
pub proof fn lemma_set_text_content(m: BufferModel, text: Seq<char>)
    ensures
        set_text_spec(m, text).text == text,
        (set_text_spec(m, text).text.len() == 0) <==> (text.len() == 0),
        set_text_spec(m, text).text.len() == text.len(),
{
}

/// Law: a wholesale replacement discards every span and every anchor
/// record, and raises exactly one event: a `Changed` appended to the
/// log, which is otherwise untouched.
pub proof fn lemma_set_text_notifications(m: BufferModel, text: Seq<char>)
    ensures
        set_text_spec(m, text).spans.len() == 0,
        set_text_spec(m, text).anchors.len() == 0,
        set_text_spec(m, text).events.len() == m.events.len() + 1,
        set_text_spec(m, text).events.last() == EventModel::Changed,
        set_text_spec(m, text).events.take(m.events.len() as int) == m.events,
{
    assert(set_text_spec(m, text).events.take(m.events.len() as int) =~= m.events);
}

/// Law: clearing empties text, spans and anchors alike, but — unlike
/// replacing the text with empty content — raises no event at all: the
/// log stays exactly as it was.
pub proof fn lemma_clear_silent(m: BufferModel)
    ensures
        clear_spec(m).text.len() == 0,
        clear_spec(m).spans.len() == 0,
        clear_spec(m).anchors.len() == 0,
        clear_spec(m).events == m.events,
{
}

// ---------------------------------------------------------------------
// Attributes and the render list
// ---------------------------------------------------------------------

/// Law: the render list of a span list with one more span is the render
/// list of the shorter list followed by the new span's own primitives —
/// so attributes applied in sequence keep their relative order in the
/// render list, and nothing is merged, dropped or reordered.
pub proof fn lemma_render_attrs_push(spans: Seq<SpanModel>, s: SpanModel)
    ensures
        render_attrs(spans.push(s)) == render_attrs(spans) + render_of_attr(
            s.attr,
            s.start,
            s.end,
        ),
{
    assert(spans.push(s).drop_last() =~= spans);
}

/// Law: after applying one attribute, the buffer's render list is the
/// previous render list extended with exactly the primitives of that
/// attribute over its range.
pub proof fn lemma_apply_attribute_render(
    m: BufferModel,
    start: int,
    end: int,
    attr: TextAttrModel,
)
    ensures
        render_attrs(apply_attribute_spec(m, start, end, attr).spans) == render_attrs(m.spans)
            + render_of_attr(attr, start, end),
        m.spans.len() == 0 ==> render_attrs(apply_attribute_spec(m, start, end, attr).spans)
            == render_of_attr(attr, start, end),
{
    lemma_render_attrs_push(m.spans, SpanModel { attr, start, end });
    if m.spans.len() == 0 {
        assert(render_attrs(m.spans) + render_of_attr(attr, start, end) =~= render_of_attr(
            attr,
            start,
            end,
        ));
    }
}

// ---------------------------------------------------------------------
// Anchor lookup
// ---------------------------------------------------------------------

/// Scanning for an identity skips every position that does not match.
proof fn lemma_first_index_skip(anchors: Seq<AnchorModel>, id: int, i: int, k: int)
    requires
        0 <= i <= k <= anchors.len(),
        forall|j: int| i <= j < k ==> #[trigger] anchors[j].id != id,
    ensures
        first_anchor_index_from(anchors, id, i) == first_anchor_index_from(anchors, id, k),
    decreases k - i,
{
    if i < k {
        lemma_first_index_skip(anchors, id, i + 1, k);
    }
}

/// What `first_anchor_index` means: it is nonnegative exactly when some
/// record carries the identity, and then names the first such record.
pub proof fn lemma_first_anchor_index_semantics(anchors: Seq<AnchorModel>, id: int)
    ensures
        (first_anchor_index(anchors, id) >= 0) <==> (exists|j: int|
            0 <= j < anchors.len() && #[trigger] anchors[j].id == id),
        first_anchor_index(anchors, id) >= 0 ==> ({
            let k = first_anchor_index(anchors, id);
            &&& 0 <= k < anchors.len()
            &&& anchors[k].id == id
            &&& forall|j: int| 0 <= j < k ==> #[trigger] anchors[j].id != id
        }),
{
    lemma_first_from_semantics(anchors, id, 0);
}

/// The `first_anchor_index_from` version of the semantics, by induction
/// on the scan position.
proof fn lemma_first_from_semantics(anchors: Seq<AnchorModel>, id: int, i: int)
    requires
        0 <= i <= anchors.len(),
    ensures
        (first_anchor_index_from(anchors, id, i) >= 0) <==> (exists|j: int|
            i <= j < anchors.len() && #[trigger] anchors[j].id == id),
        first_anchor_index_from(anchors, id, i) >= 0 ==> ({
            let k = first_anchor_index_from(anchors, id, i);
            &&& i <= k < anchors.len()
            &&& anchors[k].id == id
            &&& forall|j: int| i <= j < k ==> #[trigger] anchors[j].id != id
        }),
    decreases anchors.len() - i,
{
    if i < anchors.len() && anchors[i].id != id {
        lemma_first_from_semantics(anchors, id, i + 1);
    }
}

// ---------------------------------------------------------------------
// Anchor creation
// ---------------------------------------------------------------------

/// Law: creating one anchor appends exactly one placeholder unit to the
/// text (everything before it unchanged), appends one record carrying the
/// counter's identity and the position immediately after the placeholder,
/// advances the counter by one, and raises the append's `Changed`
/// followed by `AnchorCreated`.
pub proof fn lemma_push_anchor_step(m: BufferModel)
    ensures
        push_anchor_spec(m).text.len() == m.text.len() + 1,
        push_anchor_spec(m).text.last() == ANCHOR_PLACEHOLDER,
        push_anchor_spec(m).text.take(m.text.len() as int) == m.text,
        push_anchor_spec(m).anchors.len() == m.anchors.len() + 1,
        push_anchor_spec(m).anchors.last().id == m.next_anchor_id,
        push_anchor_spec(m).anchors.last().pos == m.text.len() + 1,
        push_anchor_spec(m).anchors.take(m.anchors.len() as int) == m.anchors,
        push_anchor_spec(m).next_anchor_id == m.next_anchor_id + 1,
        push_anchor_spec(m).spans == m.spans,
        push_anchor_spec(m).events == m.events.push(EventModel::Changed).push(
            EventModel::AnchorCreated(m.next_anchor_id, m.text.len() as int + 1),
        ),
{
    assert(push_anchor_spec(m).text.take(m.text.len() as int) =~= m.text);
    assert(push_anchor_spec(m).anchors.take(m.anchors.len() as int) =~= m.anchors);
}

/// n anchor creations in a row.
pub open spec fn push_anchors_n(m: BufferModel, n: nat) -> BufferModel
    decreases n,
{
    if n == 0 {
        m
    } else {
        push_anchor_spec(push_anchors_n(m, (n - 1) as nat))
    }
}

/// Law: n anchor creations on a fresh buffer yield records with the
/// strictly increasing identities 0, 1, …, n-1 in creation order, append
/// one placeholder unit each, and record position i+1 for the i-th
/// anchor — immediately after its placeholder.
pub proof fn lemma_anchor_identities(n: nat)
    ensures
        push_anchors_n(new_buffer_model(), n).anchors.len() == n,
        push_anchors_n(new_buffer_model(), n).text.len() == n,
        push_anchors_n(new_buffer_model(), n).next_anchor_id == n,
        forall|i: int|
            0 <= i < n ==> #[trigger] push_anchors_n(new_buffer_model(), n).anchors[i].id == i,
        forall|i: int|
            0 <= i < n ==> #[trigger] push_anchors_n(new_buffer_model(), n).anchors[i].pos == i
                + 1,
    decreases n,
{
    if n > 0 {
        lemma_anchor_identities((n - 1) as nat);
    }
}

/// Law: in a well-formed buffer a freshly created anchor's identity
/// resolves to the newly appended record — no earlier record can carry
/// it — and that record's position is the end of the new text, just
/// after the placeholder.
pub proof fn lemma_fresh_anchor_lookup(m: BufferModel)
    requires
        buffer_wf(m),
    ensures
        first_anchor_index(push_anchor_spec(m).anchors, m.next_anchor_id) == m.anchors.len(),
        push_anchor_spec(m).anchors[m.anchors.len() as int].pos == push_anchor_spec(m).text.len(),
{
    let anchors = push_anchor_spec(m).anchors;
    let n = m.anchors.len() as int;
    assert(forall|j: int| 0 <= j < n ==> #[trigger] anchors[j].id != m.next_anchor_id);
    lemma_first_index_skip(anchors, m.next_anchor_id, 0, n);
}

// ---------------------------------------------------------------------
// Payload attachment
// ---------------------------------------------------------------------

/// Law: attaching a paintable to a known identity stores it on the first
/// record with that identity (overwriting any previous payload), leaves
/// every other record and all other state untouched, and raises exactly
/// `PaintableInserted` then `Changed`; attaching to an unknown identity
/// changes nothing and raises nothing.
pub proof fn lemma_attach_payload(m: BufferModel, id: int, payload: int)
    ensures
        first_anchor_index(m.anchors, id) >= 0 ==> ({
            let k = first_anchor_index(m.anchors, id);
            let r = attach_payload_spec(m, id, payload);
            &&& r.anchors.len() == m.anchors.len()
            &&& r.anchors[k].id == m.anchors[k].id
            &&& r.anchors[k].pos == m.anchors[k].pos
            &&& r.anchors[k].paintable == Some(payload)
            &&& forall|j: int|
                0 <= j < m.anchors.len() && j != k ==> #[trigger] r.anchors[j] == m.anchors[j]
            &&& r.events == m.events.push(EventModel::PaintableInserted(id)).push(
                EventModel::Changed,
            )
            &&& r.text == m.text
            &&& r.spans == m.spans
            &&& r.next_anchor_id == m.next_anchor_id
        }),
        first_anchor_index(m.anchors, id) < 0 ==> attach_payload_spec(m, id, payload) == m,
{
    lemma_first_anchor_index_semantics(m.anchors, id);
}

// ---------------------------------------------------------------------
// The buffer invariant
// ---------------------------------------------------------------------

/// A fresh buffer is well-formed.
pub proof fn lemma_wf_new()
    ensures
        buffer_wf(new_buffer_model()),
{
}

/// A wholesale replacement preserves well-formedness (it empties the
/// anchor list).
pub proof fn lemma_wf_set_text(m: BufferModel, text: Seq<char>)
    requires
        buffer_wf(m),
    ensures
        buffer_wf(set_text_spec(m, text)),
{
}

/// Appending text preserves well-formedness (recorded positions only
/// fall deeper inside the text).
pub proof fn lemma_wf_push_str(m: BufferModel, text: Seq<char>)
    requires
        buffer_wf(m),
    ensures
        buffer_wf(push_str_spec(m, text)),
{
}

/// Applying an attribute preserves well-formedness (anchors and text are
/// untouched).
pub proof fn lemma_wf_apply_attribute(m: BufferModel, start: int, end: int, attr: TextAttrModel)
    requires
        buffer_wf(m),
    ensures
        buffer_wf(apply_attribute_spec(m, start, end, attr)),
{
}

/// Creating an anchor preserves well-formedness: the new identity is the
/// counter, strictly above every stored identity, and the new position is
/// the new text end.
pub proof fn lemma_wf_push_anchor(m: BufferModel)
    requires
        buffer_wf(m),
    ensures
        buffer_wf(push_anchor_spec(m)),
{
}

/// Attaching a paintable preserves well-formedness: identities and
/// positions are untouched.
pub proof fn lemma_wf_attach_payload(m: BufferModel, id: int, payload: int)
    requires
        buffer_wf(m),
    ensures
        buffer_wf(attach_payload_spec(m, id, payload)),
{
    lemma_first_anchor_index_semantics(m.anchors, id);
    let r = attach_payload_spec(m, id, payload);
    assert(forall|i: int|
        0 <= i < m.anchors.len() ==> #[trigger] r.anchors[i].id == m.anchors[i].id
            && r.anchors[i].pos == m.anchors[i].pos);
}

/// Clearing preserves well-formedness (it empties the anchor list).
pub proof fn lemma_wf_clear(m: BufferModel)
    requires
        buffer_wf(m),
    ensures
        buffer_wf(clear_spec(m)),
{
}

// ---------------------------------------------------------------------
// View rebuilds
// ---------------------------------------------------------------------

/// Law: rebuilds are driven by dirtiness alone. On a dirty view one
/// measurement pass rebuilds the cache exactly once; a second pass with
/// the same axis and available width neither rebuilds nor touches the
/// width, and leaves the view exactly as the first pass left it.
pub proof fn lemma_update_layout_once(v: ViewModel, orientation: Orientation, for_size: i32)
    requires
        v.needs_update,
    ensures
        ({
            let (v1, r1) = update_layout_spec(v, orientation, for_size);
            let (v2, r2) = update_layout_spec(v1, orientation, for_size);
            &&& r1.rebuilt
            &&& !r2.rebuilt
            &&& !r2.width_set
            &&& v2 == v1
        }),
{
}

/// Law: a clean view never rebuilds. A measurement pass on a view that
/// is not dirty — whatever the axis and available width — reports no
/// rebuild and keeps the cached layout's text and attributes exactly as
/// they were; at most the assigned width changes.
pub proof fn lemma_clean_view_never_rebuilds(
    v: ViewModel,
    orientation: Orientation,
    for_size: i32,
)
    requires
        !v.needs_update,
    ensures
        ({
            let (v2, r) = update_layout_spec(v, orientation, for_size);
            &&& !r.rebuilt
            &&& v2.buffer == v.buffer
            &&& !v2.needs_update
            &&& (v2.layout is Some) <==> (v.layout is Some)
            &&& v2.layout matches Some(l2) ==> (v.layout matches Some(l1) && l2.text == l1.text
                && l2.attrs == l1.attrs && l2.wrap == l1.wrap)
        }),
{
}

/// Law: a width-only change is a reflow, not a rebuild. On a clean view
/// with a cached layout whose width differs from the requested one, a
/// vertical measurement pass reapplies the width and keeps the cached
/// text and attributes exactly as they were.
pub proof fn lemma_width_only_reflow(v: ViewModel, for_size: i32)
    requires
        !v.needs_update,
        for_size > 0,
        v.layout is Some,
        v.layout->Some_0.width != for_size * RENDER_SCALE as int,
    ensures
        ({
            let (v2, r) = update_layout_spec(v, Orientation::Vertical, for_size);
            &&& !r.rebuilt
            &&& r.width_set
            &&& v2.buffer == v.buffer
            &&& v2.layout matches Some(l2) && l2.text == v.layout->Some_0.text && l2.attrs
                == v.layout->Some_0.attrs && l2.wrap == v.layout->Some_0.wrap && l2.width
                == for_size * RENDER_SCALE as int
        }),
{
}

} // verus!
