//! Verified core of a small VGA text-mode kernel: colours, the screen
//! terminal, the keyboard decoder and the interrupt-controller tables.

pub mod vgacolor;
pub mod screen;
pub mod interrupts;
pub mod terminal;
pub mod keyboard;
