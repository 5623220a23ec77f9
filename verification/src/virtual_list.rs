//! Which rows of a virtualised list are materialised.
use vstd::prelude::*;
use crate::arith::{min_index, saturating_diff, saturating_sum, smaller};

verus! {

#[derive(Clone, Copy, Debug, PartialEq, Eq, Structural)]
pub struct VirtualListState {
    pub total_items: usize,
    pub first_visible: usize,
    pub visible_count: usize,
    pub overscan: usize,
}

impl VirtualListState {
    /// First row to materialise: `overscan` rows before the first visible
    /// one, clipped to the list.
    pub open spec fn range_start(self) -> usize {
        min_index(saturating_diff(self.first_visible, self.overscan), self.total_items)
    }

    /// One past the last visible row, clipped to the list.
    pub open spec fn visible_end(self) -> usize {
        min_index(saturating_sum(self.first_visible, self.visible_count), self.total_items)
    }

    /// One past the last row to materialise: `overscan` rows after the
    /// visible ones, clipped to the list.
    pub open spec fn range_end(self) -> usize {
        min_index(saturating_sum(self.visible_end(), self.overscan), self.total_items)
    }

    /// The rows to materialise: the visible rows widened by `overscan` on
    /// each side, clipped to `0..total_items`.
    pub fn materialized_range(self) -> (r: std::ops::Range<usize>)
        ensures
            r.start == self.range_start(),
            r.end == self.range_end(),
    {
        let start = smaller(self.first_visible.saturating_sub(self.overscan), self.total_items);
        let visible_end = smaller(
            self.first_visible.saturating_add(self.visible_count),
            self.total_items,
        );
        let end = smaller(visible_end.saturating_add(self.overscan), self.total_items);
        start..end
    }
}

/// The materialised range is a well-formed part of the list that holds every
/// visible row.
pub proof fn law_range_covers_visible_rows(s: VirtualListState)
    ensures
        s.range_start() <= s.range_end() <= s.total_items,
        s.range_start() <= min_index(s.first_visible, s.total_items),
        s.visible_end() <= s.range_end(),
{
}

/// Without overscan the materialised range is exactly the visible rows that
/// exist.
pub proof fn law_no_overscan_is_visible_rows(s: VirtualListState)
    requires
        s.overscan == 0,
    ensures
        s.range_start() == min_index(s.first_visible, s.total_items),
        s.range_end() == s.visible_end(),
{
}

/// Away from the ends of the list and of `usize`, the range is the visible
/// rows widened by exactly `overscan` rows on each side.
pub proof fn law_range_widens_by_overscan(s: VirtualListState)
    requires
        s.overscan <= s.first_visible,
        s.first_visible + s.visible_count + s.overscan <= s.total_items,
    ensures
        s.range_start() == s.first_visible - s.overscan,
        s.range_end() == s.first_visible + s.visible_count + s.overscan,
{
}

/// Near the ends the range is clipped: it starts at row 0 when the overscan
/// reaches past the first row, and ends at the last row when the widened
/// window reaches past it.
pub proof fn law_range_clips_at_the_ends(s: VirtualListState)
    ensures
        s.first_visible < s.overscan ==> s.range_start() == 0,
        s.first_visible - s.overscan > s.total_items ==> s.range_start() == s.total_items,
        s.first_visible + s.visible_count + s.overscan >= s.total_items ==> s.range_end()
            == s.total_items,
{
}

} // verus!
