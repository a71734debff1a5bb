//! Core of a terminal countdown timer: the event-driven countdown state
//! machine, its render projection, and the duration grammar of the command
//! line, all with verified contracts. Terminal drawing, key input, and
//! desktop-notification delivery live outside the library and talk to it
//! through plain values.

pub mod app;
pub mod cli;
pub mod duration;
pub mod event;
pub mod laws;
pub mod mode;
pub mod notification;
pub mod ui;

pub use app::{App, AppState, TimerState};
pub use cli::{Cli, ConfigError};
pub use event::{AppEvent, KeyCode};
pub use mode::Mode;
pub use notification::NotificationRequest;
pub use ui::{Projection, Tone};
