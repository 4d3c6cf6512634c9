//! Enigo simulates mouse and keyboard input events as if they were made by
//! the actual hardware.
//!
//! This crate holds what the library decides, with its behaviour stated and
//! proved: the keys, buttons and directions, the `Keyboard`/`Mouse`/`Agent`
//! interfaces with their default behaviour, the small tag language (`dsl`),
//! and the decisions of the Linux backends (X11, Wayland, libei, the XDG
//! desktop portal and xdo): which keycodes are spare and which keysyms are
//! mapped to them, which modifiers a level needs, which protocol serves a
//! request, and what each request is sent as.

pub mod dsl;
pub mod input;
pub mod keycodes;
pub mod keymap;
pub mod keymap2;
pub mod keysyms;
pub mod macos;
pub mod libei;
pub mod parser;
pub mod protocols;
pub mod simulate;
pub mod text;
pub mod vk;
pub mod wayland;
pub mod win;
pub mod x11;
pub mod xdg;
pub mod xdo;
pub mod xdo_early;

pub use input::{
    win_future_rel_mouse_location, Axis, Button, Coordinate, Direction, InputError, InputResult,
    NewConError, Settings, EVENT_MARKER,
};
pub use keycodes::Key;
pub use simulate::{Agent, InputCall, InputLog, Keyboard, Mouse, Token};
