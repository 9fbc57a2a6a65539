//! Hover-debounce logic for toggling a status bar from pointer position.
//!
//! The library holds the decision core of a pointer-hover daemon: a debounce
//! state machine that turns a noisy, polled Y-coordinate signal into stable
//! show/hide transitions, the parsers that read a Y-coordinate out of
//! compositor query output, the command-line option parser, and the slot that
//! tracks the managed process identifier. Process spawning, killing and the
//! compositor queries themselves are left to the surrounding binary.

pub mod config;
pub mod handle;
pub mod hover;
pub mod locator;
pub mod numbers;
pub mod text;
