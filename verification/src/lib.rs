//! The core of a terminal weather dashboard: what is shown, and what each
//! key does.
//!
//! The event loop that owns the terminal and the network lives outside of
//! this crate. It hands over what it got (a key, a snapshot, a failure)
//! and takes back what to do next and what to draw.
//!
//! - [`weather`]: the snapshot and what is derived from it.
//! - [`ui`]: the interaction state machine.
//! - [`render`]: the panels that show a state.
//! - [`api`]: how a request is addressed and what becomes of its outcome.
//! - [`text`]: numerals and words.

pub mod api;
pub mod render;
pub mod text;
pub mod ui;
pub mod weather;
