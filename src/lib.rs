//! Policy core of a small Wayland window manager: window layout, input
//! routing, interactive move/resize grabs and redraw scheduling, all over
//! plain values, each decision with a proved contract.

pub mod geometry;
pub mod space;
pub mod redraw;
pub mod keys;
pub mod axis;
pub mod grab;
pub mod state;
pub mod shell;
pub mod input;
pub mod render;
