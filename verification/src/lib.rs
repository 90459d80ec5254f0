//! An in-process log capture buffer and the scrollback view over it.
//!
//! The [`Logger`] keeps every accepted message in arrival order. The
//! [`Viewport`] maps that history onto a bordered region of fixed height,
//! always pinned to the newest entries, and the [`Widget`] paints it.

pub mod level;
pub mod logger;
pub mod message;
pub mod viewport;
pub mod widget;

pub use level::{Level, LevelFilter};
pub use logger::{default_max_level, init, set_max_level, InitError, Logger, TARGET};
pub use message::Message;
pub use viewport::{capacity, offset, Indicator, Viewport, CHROME_ROWS};
pub use widget::{Color, Region, Row, Scene, Widget, TITLE};
