//! A minimal modal terminal text-entry widget.
//!
//! The library holds the application state (editing mode, input buffer, last
//! submission), the input controller that applies one key-press to that state,
//! and the renderer that turns the state into a per-frame draw plan. Terminal
//! I/O is left to the host program.

pub mod app;
pub mod input;
pub mod render;

use vstd::prelude::*;

verus! {

} // verus!
