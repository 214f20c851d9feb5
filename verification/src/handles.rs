//! Opaque handle types: positions into a text snapshot and anchor
//! identities.
//!
//! Both handles wrap a single integer and expose only equality and
//! ordering, never arithmetic, so a handle from one snapshot cannot be
//! silently recombined with another. The model of a handle is the plain
//! integer it wraps.

use vstd::prelude::*;

verus! {

/// Opaque handle to a position in the text buffer.
///
/// A position records a character offset into the text of the specific
/// buffer state it was obtained from. The buffer's mutation model is
/// append-only between full resets, so a recorded position stays within
/// the text until the next reset; nothing rebases positions across one.
#[derive(Debug, Clone, Copy, PartialEq, Eq, Structural)]
pub struct InlinePos {
    offset: usize,
}

impl View for InlinePos {
    type V = int;

    closed spec fn view(&self) -> int {
        self.offset as int
    }
}

impl DeepView for InlinePos {
    type V = int;

    open spec fn deep_view(&self) -> int {
        self.view()
    }
}

impl InlinePos {
    /// Wrap a character offset as a position handle.
    pub fn new(offset: usize) -> (p: InlinePos)
        ensures
            p@ == offset,
    {
        InlinePos { offset }
    }

    /// The character offset this handle records.
    pub fn offset(&self) -> (o: usize)
        ensures
            o == self@,
    {
        self.offset
    }
}

impl PartialOrd for InlinePos {
    fn partial_cmp(&self, other: &InlinePos) -> (r: Option<core::cmp::Ordering>) {
        if self.offset < other.offset {
            Some(core::cmp::Ordering::Less)
        } else if self.offset == other.offset {
            Some(core::cmp::Ordering::Equal)
        } else {
            Some(core::cmp::Ordering::Greater)
        }
    }
}

impl vstd::std_specs::cmp::PartialOrdSpecImpl for InlinePos {
    open spec fn obeys_partial_cmp_spec() -> bool {
        true
    }

    open spec fn partial_cmp_spec(&self, other: &InlinePos) -> Option<core::cmp::Ordering> {
        if self@ < other@ {
            Some(core::cmp::Ordering::Less)
        } else if self@ == other@ {
            Some(core::cmp::Ordering::Equal)
        } else {
            Some(core::cmp::Ordering::Greater)
        }
    }
}

/// Opaque handle to an anchor in the buffer.
///
/// An anchor's identity is assigned when the anchor is created, strictly
/// increases across creations, and is never reused, even after the anchor
/// itself has been discarded by a full reset.
#[derive(Debug, Clone, Copy, PartialEq, Eq, Structural)]
pub struct InlineAnchor {
    id: usize,
}

impl View for InlineAnchor {
    type V = int;

    closed spec fn view(&self) -> int {
        self.id as int
    }
}

impl DeepView for InlineAnchor {
    type V = int;

    open spec fn deep_view(&self) -> int {
        self.view()
    }
}

impl InlineAnchor {
    /// Wrap an anchor identity as a handle.
    pub fn new(id: usize) -> (a: InlineAnchor)
        ensures
            a@ == id,
    {
        InlineAnchor { id }
    }

    /// The identity this handle records.
    pub fn id(&self) -> (i: usize)
        ensures
            i == self@,
    {
        self.id
    }
}

impl PartialOrd for InlineAnchor {
    fn partial_cmp(&self, other: &InlineAnchor) -> (r: Option<core::cmp::Ordering>) {
        if self.id < other.id {
            Some(core::cmp::Ordering::Less)
        } else if self.id == other.id {
            Some(core::cmp::Ordering::Equal)
        } else {
            Some(core::cmp::Ordering::Greater)
        }
    }
}

impl vstd::std_specs::cmp::PartialOrdSpecImpl for InlineAnchor {
    open spec fn obeys_partial_cmp_spec() -> bool {
        true
    }

    open spec fn partial_cmp_spec(&self, other: &InlineAnchor) -> Option<core::cmp::Ordering> {
        if self@ < other@ {
            Some(core::cmp::Ordering::Less)
        } else if self@ == other@ {
            Some(core::cmp::Ordering::Equal)
        } else {
            Some(core::cmp::Ordering::Greater)
        }
    }
}

} // verus!
