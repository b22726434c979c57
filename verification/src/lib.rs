//! Core logic of a desktop quick-settings panel: the pointer-driven slider
//! control, the periodic network/Bluetooth state poller with its text
//! parsers, the stylesheet colour theme, and the one-shot window placement.
//!
//! Everything here works on plain values (pixel coordinates, command output
//! text, timestamps); the surrounding process is expected to do the actual
//! drawing and to shell out to the system utilities, feeding their output in.

pub mod slider;
pub mod text;
pub mod settings;
pub mod theme;
pub mod placement;
