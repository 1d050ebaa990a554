//! The decision core of an interactive console for a device scanner.
//!
//! The console lists the devices that a debug bridge reports, lets an
//! operator pick one, runs one background scan at a time and shows the
//! findings as they arrive. This crate holds everything the console
//! decides: what a key press means, how the state moves, what is owed to
//! the outside world after each event, and what the screen shows. It
//! performs no input or output itself. The caller reads keys, talks to the
//! bridge, runs the scan and draws; it hands everything that happens to
//! [`step`] and carries out the [`Action`] that comes back.

pub mod app;
pub mod device;
pub mod event_loop;
pub mod input;
pub mod laws;
pub mod message;
pub mod screen;
pub mod text;

pub use app::{handle_key, Action, App, Error};
pub use device::Device;
pub use event_loop::{step, Arrival};
pub use input::{interpret, Command, Event, KeyCode, KeyEvent, Mode};
pub use input::{CONTROL, NO_MODIFIERS, SHIFT};
pub use message::{closing_message, Message, ScanOutcome, Suspicion};
pub use message::{BUS_CAPACITY, CANCEL_CAPACITY};
pub use screen::{ui, Body, DeviceRow, Screen, Span, SERIAL_WIDTH};
pub use text::pad_right;
