//! Keyboard normalisation and menu accelerators.
//!
//! Raw key messages are turned into portable key events, and a tree of menu
//! items with hotkeys is compiled into the accelerator records that a
//! platform's command dispatch consumes.
//!
//! Nothing here calls the platform. What the platform reports comes in as
//! plain values, and what it is to do goes out as plain values: the caller
//! makes the native calls.

pub mod accel;
pub mod appmenu;
pub mod delegate;
pub mod extended;
pub mod hotkey;
pub mod keycode;
pub mod keystate;
pub mod layout;
pub mod menu;
pub mod modifiers;
pub mod table;
pub mod vkey;

pub use accel::Accelerator;
pub use hotkey::Hotkey;
pub use keycode::{ScanCode, VirtualKeyCode};
pub use menu::{Menu, MenuItem};
pub use modifiers::{Modifier, ModifiersState, ModifiersStateSide, SideModifier};
pub use table::{compile, AcceleratorRegistry, AcceleratorTable};
