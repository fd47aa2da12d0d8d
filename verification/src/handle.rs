//! Attribute handles and closed handle ranges.

use vstd::prelude::*;

verus! {

/// A 16-bit handle that identifies an attribute on an ATT server.
///
/// Handle `0x0000` is reserved: no attribute ever carries it, and the first
/// attribute of a table has handle `0x0001`.
#[derive(Clone, Copy, Debug, PartialEq, Eq, Structural)]
pub struct Handle(pub u16);

impl Handle {
    /// Makes a handle from its raw 16-bit value.
    pub fn from_raw(raw: u16) -> (h: Handle)
        ensures
            h == Handle(raw),
    {
        Handle(raw)
    }

    /// The raw 16-bit value of this handle.
    pub fn as_u16(&self) -> (raw: u16)
        ensures
            raw == self.0,
    {
        self.0
    }
}

/// A closed interval `[start, end]` of handles that scopes one query.
///
/// Either end may lie beyond the last handle of the table that is queried.
#[derive(Clone, Copy, Debug, PartialEq, Eq, Structural)]
pub struct HandleRange {
    pub start: Handle,
    pub end: Handle,
}

impl HandleRange {
    /// Whether `handle` lies inside the interval, both ends included.
    pub open spec fn contains(self, handle: Handle) -> bool {
        self.start.0 <= handle.0 <= self.end.0
    }

    /// The range of all handles from `from` up to and including `to`.
    pub fn new(from: Handle, to: Handle) -> (range: HandleRange)
        ensures
            range == (HandleRange { start: from, end: to }),
    {
        HandleRange { start: from, end: to }
    }

    /// The lowest handle of the range.
    pub fn start(&self) -> (h: Handle)
        ensures
            h == self.start,
    {
        self.start
    }

    /// The highest handle of the range.
    pub fn end(&self) -> (h: Handle)
        ensures
            h == self.end,
    {
        self.end
    }
}

} // verus!
