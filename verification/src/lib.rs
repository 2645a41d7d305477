//! Decision logic of a drop-down terminal overlay for layer-shell compositors.
//!
//! The window itself is drawn by a toolkit; this library holds what the
//! overlay decides: where it is anchored, how it slides in and out, how
//! command-line options and the configuration file combine, and which steps
//! bring a window into the requested state.

pub mod commandline;
pub mod config;
pub mod main_options;
pub mod placement;
pub mod shell;
pub mod window;
