//! The window that a region of fixed height opens onto a message history.

use vstd::prelude::*;

verus! {

/// Rows of a region that the border and the title take.
pub const CHROME_ROWS: usize = 2;

/// Rows left for messages in a region of `rows` rows: what the chrome leaves,
/// and never less than one.
pub open spec fn capacity_of(rows: int) -> int {
    if rows - 2 >= 1 {
        rows - 2
    } else {
        1
    }
}

/// Index of the first message shown when `total` messages are pinned to the
/// tail of a window of `capacity` rows.
pub open spec fn offset_of(total: int, capacity: int) -> int {
    if total - capacity >= 0 {
        total - capacity
    } else {
        0
    }
}

/// Rows left for messages in a region of `rows` rows.
pub fn capacity(rows: usize) -> (r: usize)
    ensures
        r == capacity_of(rows as int),
        r >= 1,
{
    if rows > CHROME_ROWS {
        rows - CHROME_ROWS
    } else {
        1
    }
}

/// Index of the first visible message of a history of `total` messages in a
/// window of `capacity` rows.
pub fn offset(total: usize, capacity: usize) -> (r: usize)
    ensures
        r == offset_of(total as int, capacity as int),
        total <= capacity ==> r == 0,
        r <= total,
{
    if total > capacity {
        total - capacity
    } else {
        0
    }
}

/// Where the window stands. Computed anew for every paint and kept nowhere.
#[derive(Clone, Copy, Debug, PartialEq, Eq, Structural)]
pub struct Viewport {
    /// Messages in the history when the window was computed.
    pub total_count: usize,
    /// Rows of the region that can show a message.
    pub visible_capacity: usize,
    /// Index of the first message shown.
    pub scroll_offset: usize,
}

/// What the position indicator beside the list is drawn from.
#[derive(Clone, Copy, Debug, PartialEq, Eq, Structural)]
pub struct Indicator {
    /// Length of the whole history, the full extent of the track.
    pub content_length: usize,
    /// Messages that the window shows at once, the extent of the thumb.
    pub viewport_length: usize,
    /// Index of the first message shown, where the thumb starts.
    pub position: usize,
}

impl Viewport {
    /// The window is pinned to the tail of the history and has room for at
    /// least one message.
    pub open spec fn wf(&self) -> bool {
        &&& self.visible_capacity >= 1
        &&& self.scroll_offset == offset_of(
            self.total_count as int,
            self.visible_capacity as int,
        )
    }

    /// The window onto `total` messages in a region of `rows` rows.
    pub open spec fn pinned(total: usize, rows: usize) -> Viewport {
        Viewport {
            total_count: total,
            visible_capacity: capacity_of(rows as int) as usize,
            scroll_offset: offset_of(total as int, capacity_of(rows as int)) as usize,
        }
    }

    /// Whether the message at `index` is inside the window.
    pub open spec fn shows(&self, index: int) -> bool {
        self.scroll_offset <= index < self.total_count
    }

    /// Whether the whole history fits into the window.
    pub open spec fn all_shown(&self) -> bool {
        self.total_count <= self.visible_capacity
    }

    /// Computes the window onto a history of `total_count` messages for a
    /// region of `rows` rows, border included.
    pub fn new(total_count: usize, rows: usize) -> (r: Viewport)
        ensures
            r == Viewport::pinned(total_count, rows),
            r.wf(),
            r.total_count == total_count,
            r.visible_capacity == capacity_of(rows as int),
            r.scroll_offset == offset_of(total_count as int, capacity_of(rows as int)),
    {
        let visible_capacity = capacity(rows);
        let scroll_offset = offset(total_count, visible_capacity);
        Viewport { total_count, visible_capacity, scroll_offset }
    }

    /// Number of messages inside the window.
    pub fn visible_count(&self) -> (r: usize)
        requires
            self.wf(),
        ensures
            r == self.total_count - self.scroll_offset,
            r == if self.all_shown() {
                self.total_count
            } else {
                self.visible_capacity
            },
    {
        self.total_count - self.scroll_offset
    }

    /// Whether nothing of the history is scrolled out of sight.
    pub fn fully_visible(&self) -> (r: bool)
        ensures
            r == self.all_shown(),
            self.wf() ==> r == (self.scroll_offset == 0),
    {
        self.total_count <= self.visible_capacity
    }

    /// The indicator for this window: a thumb of the window's extent on a
    /// track of the history's length, starting at the first message shown.
    pub fn indicator(&self) -> (r: Indicator)
        ensures
            r.content_length == self.total_count,
            r.viewport_length == self.visible_capacity,
            r.position == self.scroll_offset,
            r.fills_track() == self.all_shown(),
            self.wf() && !self.all_shown() ==> r.at_end(),
    {
        Indicator {
            content_length: self.total_count,
            viewport_length: self.visible_capacity,
            position: self.scroll_offset,
        }
    }
}

impl Indicator {
    /// The thumb covers the whole track: nothing is hidden.
    pub open spec fn fills_track(&self) -> bool {
        self.content_length <= self.viewport_length
    }

    /// The thumb ends where the track ends: the newest message is shown.
    pub open spec fn at_end(&self) -> bool {
        self.position + self.viewport_length == self.content_length
    }

    /// Whether the indicator reads as fully visible.
    pub fn is_full(&self) -> (r: bool)
        ensures
            r == self.fills_track(),
    {
        self.content_length <= self.viewport_length
    }
}

/// The window is always pinned to the tail: its offset is the history's
/// length less the capacity, or zero when the history fits, and then the
/// indicator fills its track. Every index from the offset on is shown, and
/// at most a capacity's worth of them.
pub proof fn lemma_viewport_is_pinned(total: usize, rows: usize)
    ensures
        Viewport::pinned(total, rows).wf(),
        Viewport::pinned(total, rows).scroll_offset == offset_of(
            total as int,
            Viewport::pinned(total, rows).visible_capacity as int,
        ),
        Viewport::pinned(total, rows).all_shown() ==> Viewport::pinned(total, rows).scroll_offset
            == 0,
        total - Viewport::pinned(total, rows).scroll_offset <= Viewport::pinned(
            total,
            rows,
        ).visible_capacity,
        Viewport::pinned(total, rows).scroll_offset <= total,
{
}

/// A region too small for its chrome still has a capacity of one row, and a
/// capacity never exceeds the region.
pub proof fn lemma_capacity_is_clamped(rows: usize)
    ensures
        capacity_of(rows as int) >= 1,
        rows <= 2 ==> capacity_of(rows as int) == 1,
        rows > 2 ==> capacity_of(rows as int) == rows - 2,
        capacity_of(rows as int) <= usize::MAX,
{
}

} // verus!
