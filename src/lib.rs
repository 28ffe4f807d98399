//! Console-visibility control for a tray-resident process: the tray menu,
//! the console state machine, the notification dispatcher and the in-memory
//! log sink that is replayed into a freshly created console.

pub mod console;
pub mod dispatch;
pub mod error_report;
pub mod log_sink;
pub mod menu;

pub use console::{ConsoleOp, ConsoleState, ConsoleStep, Progress};
pub use dispatch::{Dispatcher, Notification, Reaction, TrayEvent};
pub use log_sink::LogSink;
pub use menu::{LogsContextMenuButton, MenuCommand, MenuItem};
