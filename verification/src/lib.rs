//! A terminal desk clock: a countdown timer, a stopwatch, a large block font
//! that scales to fill the screen, a color configuration, and the decisions
//! of the clock's event loop.

pub mod app;
pub mod color;
pub mod config;
pub mod display;
pub mod font;
pub mod notification;
pub mod stopwatch;
pub mod time;
pub mod timer;
pub mod ui;

pub use app::{App, AppMode, KeyCode, KeyInput};
pub use color::{Color, ColorParseError};
pub use config::{AppConfig, ColorConfig, DefaultMode, RawConfig};
pub use font::LargeFont;
pub use notification::{MockNotifier, Notifier, SystemNotifier};
pub use stopwatch::Stopwatch;
pub use time::{Clock, Duration, Instant};
pub use timer::CountdownTimer;
pub use ui::Rect;
