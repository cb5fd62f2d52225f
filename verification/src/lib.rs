//! Coordination layer of a small 3D scene: the startup routines that fill the
//! world, the interval-gated position report, the keyboard-driven toggles and
//! the window state they control.

pub mod input;
pub mod plugin;
pub mod report;
pub mod scene;
pub mod timer;
pub mod window;
