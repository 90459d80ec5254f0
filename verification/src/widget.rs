//! The scrollback view: what is painted for a history in a given region.

use crate::level::Level;
use crate::message::Message;
use crate::viewport::{Indicator, Viewport};
use vstd::prelude::*;

verus! {

/// Title shown in the border of the list.
pub const TITLE: &'static str = "Logs";

/// The colours that severities are shown in.
#[derive(Clone, Copy, Debug, PartialEq, Eq, Structural, Hash)]
pub enum Color {
    Red,
    Yellow,
    Green,
    Blue,
    Gray,
}

/// The rectangle of the host's surface that the view is painted into.
#[derive(Clone, Copy, Debug, PartialEq, Eq, Structural)]
pub struct Region {
    /// Column of the top left corner.
    pub x: u16,
    /// Row of the top left corner.
    pub y: u16,
    /// Number of columns.
    pub width: u16,
    /// Number of rows, border included.
    pub height: u16,
}

/// One line of the list: the severity column, its colour, and the text.
#[derive(Debug)]
pub struct Row {
    /// The severity, padded to a column of fixed width.
    pub label: &'static str,
    /// The colour of the severity column.
    pub color: Color,
    /// The text of the message.
    pub text: String,
}

/// Everything that one paint of the view shows.
#[derive(Debug)]
pub struct Scene {
    /// Where the window stands in the history.
    pub viewport: Viewport,
    /// The lines inside the window, oldest first.
    pub rows: Vec<Row>,
    /// The position indicator beside the list.
    pub indicator: Indicator,
}

/// The scrollback view. It keeps no state: every paint starts from the
/// history as it is and pins the window to its newest entries.
#[derive(Clone, Copy, Debug)]
pub struct Widget {}

impl Level {
    /// The colour that the severity is shown in.
    pub open spec fn color_of(self) -> Color {
        match self {
            Level::Error => Color::Red,
            Level::Warn => Color::Yellow,
            Level::Info => Color::Green,
            Level::Debug => Color::Blue,
            Level::Trace => Color::Gray,
        }
    }

    /// The colour that the severity is shown in.
    pub fn color(self) -> (r: Color)
        ensures
            r == self.color_of(),
    {
        match self {
            Level::Error => Color::Red,
            Level::Warn => Color::Yellow,
            Level::Info => Color::Green,
            Level::Debug => Color::Blue,
            Level::Trace => Color::Gray,
        }
    }
}

impl Region {
    /// Number of rows of the region, border included: its height, cut off
    /// where the coordinates end.
    pub open spec fn row_count(&self) -> int {
        if self.y + self.height <= u16::MAX {
            self.height as int
        } else {
            u16::MAX - self.y
        }
    }

    /// Number of rows of the region, border included.
    pub fn rows(&self) -> (r: usize)
        ensures
            r == self.row_count(),
            r <= self.height,
    {
        let room: u16 = u16::MAX - self.y;
        if self.height <= room {
            self.height as usize
        } else {
            room as usize
        }
    }
}

impl Row {
    /// Whether the row is the line for a message of severity `entry.0` and
    /// text `entry.1`.
    pub open spec fn shows(&self, entry: (Level, Seq<char>)) -> bool {
        &&& self.label@ == entry.0.label_text()
        &&& self.color == entry.0.color_of()
        &&& self.text@ == entry.1
    }

    /// The line for `message`.
    pub fn from_message(message: &Message) -> (r: Row)
        ensures
            r.shows(message@),
    {
        let level = message.level();
        Row { label: level.label(), color: level.color(), text: message.message().to_owned() }
    }
}

impl Scene {
    /// Whether the scene is the view of `history` in a region of `rows`
    /// rows: the window is pinned to the tail, the lines are those of the
    /// messages from the window's offset on, and the indicator is the
    /// window's.
    pub open spec fn depicts(&self, history: Seq<(Level, Seq<char>)>, rows: usize) -> bool {
        &&& history.len() <= usize::MAX
        &&& self.viewport == Viewport::pinned(history.len() as usize, rows)
        &&& self.rows@.len() == history.len() - self.viewport.scroll_offset
        &&& forall|i: int|
            0 <= i < self.rows@.len() ==> (#[trigger] self.rows@[i]).shows(
                history[self.viewport.scroll_offset + i],
            )
        &&& self.indicator.content_length == history.len()
        &&& self.indicator.viewport_length == self.viewport.visible_capacity
        &&& self.indicator.position == self.viewport.scroll_offset
    }
}

impl Default for Widget {
    /// The same as [`Widget::new`].
    fn default() -> (r: Self)
        ensures
            r == (Widget {  }),
    {
        Widget {  }
    }
}

impl Widget {
    /// A view.
    pub fn new() -> (r: Self)
        ensures
            r == (Widget {  }),
    {
        Widget {  }
    }

    /// Lays out the view of `messages` for the region `area`.
    pub fn render(self, messages: &Vec<Message>, area: Region) -> (r: Scene)
        ensures
            r.depicts(crate::message::history_of(messages@), area.row_count() as usize),
            r.viewport.wf(),
            r.rows@.len() <= r.viewport.visible_capacity,
            r.indicator.fills_track() == (messages@.len() <= r.viewport.visible_capacity),
    {
        let total: usize = messages.len();
        let viewport = Viewport::new(total, area.rows());
        let ghost history = crate::message::history_of(messages@);
        let mut rows: Vec<Row> = Vec::new();
        let mut i: usize = viewport.scroll_offset;
        while i < total
            invariant
                total == messages@.len(),
                history == crate::message::history_of(messages@),
                viewport.scroll_offset <= i <= total,
                rows@.len() == i - viewport.scroll_offset,
                forall|k: int|
                    0 <= k < rows@.len() ==> (#[trigger] rows@[k]).shows(
                        history[viewport.scroll_offset + k],
                    ),
            decreases total - i,
        {
            let row = Row::from_message(&messages[i]);
            rows.push(row);
            i += 1;
        }
        let indicator = viewport.indicator();
        Scene { viewport, rows, indicator }
    }
}

} // verus!
