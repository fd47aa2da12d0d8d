//! Range resolution over a table whose attributes carry the handles
//! `1, 2, 3, ...` in table order.

use vstd::prelude::*;
use crate::attribute::{views, Attribute, AttributeView};
use crate::handle::HandleRange;

verus! {

/// The attribute at table position `i` has handle `i + 1`, so handles rise
/// strictly along the table and none occurs twice.
pub open spec fn contiguous(table: Seq<AttributeView>) -> bool {
    &&& table.len() <= 0xFFFF
    &&& forall|i: int| 0 <= i < table.len() ==> (#[trigger] table[i]).handle.0 == i + 1
}

/// The table position of the first attribute whose handle is at least `start`.
pub open spec fn first_index(start: u16) -> int {
    if start == 0 {
        0
    } else {
        start - 1
    }
}

/// One past the table position of the last attribute whose handle is at most
/// `end`, in a table of `count` attributes.
pub open spec fn end_index(count: nat, end: u16) -> int {
    if end < count {
        end as int
    } else {
        count as int
    }
}

/// The contiguous run of `table` that `range` selects. It is empty when the
/// range starts beyond the table or ends before it starts.
pub open spec fn resolved<T>(table: Seq<T>, range: HandleRange) -> Seq<T> {
    let lo = first_index(range.start.0);
    let hi = end_index(table.len(), range.end.0);
    if lo < hi {
        table.subrange(lo, hi)
    } else {
        Seq::empty()
    }
}

/// The attributes of `table` whose handles lie in `range`, in table order.
pub open spec fn in_range(table: Seq<AttributeView>, range: HandleRange) -> Seq<AttributeView> {
    table.filter(|a: AttributeView| range.contains(a.handle))
}

/// Resolving a range over a table with contiguous handles yields exactly the
/// attributes whose handles lie in the range, in table order.
pub proof fn lemma_resolved_is_in_range(table: Seq<AttributeView>, range: HandleRange)
    requires
        contiguous(table),
    ensures
        resolved(table, range) == in_range(table, range),
    decreases table.len(),
{
    let pred = |a: AttributeView| range.contains(a.handle);
    if table.len() == 0 {
        assert(resolved(table, range) =~= in_range(table, range));
    } else {
        let shorter = table.drop_last();
        let last = table.last();
        assert(contiguous(shorter));
        lemma_resolved_is_in_range(shorter, range);
        assert(last.handle.0 == table.len());
        assert(table.filter(pred) == if pred(last) {
            shorter.filter(pred).push(last)
        } else {
            shorter.filter(pred)
        }) by {
            reveal(Seq::filter);
        }
        assert(resolved(table, range) =~= in_range(table, range));
    }
}

/// The number of handles from `max(start, 1)` to `min(end, count)`.
pub open spec fn selected(count: nat, range: HandleRange) -> nat {
    let first: int = if range.start.0 < 1 {
        1
    } else {
        range.start.0 as int
    };
    let last: int = if range.end.0 < count {
        range.end.0 as int
    } else {
        count as int
    };
    if last - first + 1 > 0 {
        (last - first + 1) as nat
    } else {
        0
    }
}

/// The number of attributes that a range selects: those from handle
/// `max(start, 1)` to handle `min(end, count)`, and none where that interval
/// is empty. It rests on the positions alone, so no table gives more than it
/// holds.
pub proof fn lemma_resolved_len<T>(table: Seq<T>, range: HandleRange)
    ensures
        resolved(table, range).len() == selected(table.len(), range),
        resolved(table, range).len() <= table.len(),
{
}

/// Over a table with contiguous handles, the resolved attributes carry the
/// handles `max(start, 1)`, `max(start, 1) + 1`, ... one after the other, so
/// they come in strictly ascending handle order and each lies in the range.
pub proof fn lemma_resolved_ascending(table: Seq<AttributeView>, range: HandleRange)
    requires
        contiguous(table),
    ensures
        forall|i: int|
            0 <= i < resolved(table, range).len() ==> (#[trigger] resolved(
                table,
                range,
            )[i]).handle.0 == first_index(range.start.0) + 1 + i,
        forall|i: int, j: int|
            0 <= i < j < resolved(table, range).len() ==> (#[trigger] resolved(
                table,
                range,
            )[i]).handle.0 < (#[trigger] resolved(table, range)[j]).handle.0,
        forall|i: int|
            0 <= i < resolved(table, range).len() ==> range.contains(
                (#[trigger] resolved(table, range)[i]).handle,
            ),
{
}

/// Resolving a range and taking the mathematical values of the attributes
/// can be done in either order.
pub proof fn lemma_views_of_resolved(attrs: Seq<Attribute>, range: HandleRange)
    ensures
        views(resolved(attrs, range)) == resolved(views(attrs), range),
{
    assert(views(resolved(attrs, range)) =~= resolved(views(attrs), range));
}

} // verus!
