//! Selection, scrolling and navigation state of a multi-panel commit browser.
//!
//! The crate holds the state that sits behind the panels of a terminal
//! dashboard (branch list, commit graph, commit message, changed files and
//! file diff) and the rules by which key presses and timers change it. It
//! paints nothing and reads no repository: the host hands it plain values and
//! carries out the work it asks for.

pub mod app;
pub mod dialogs;
pub mod diff;
pub mod event;
pub mod graph;
pub mod schedule;
pub mod search;
pub mod settings;
pub mod style;
pub mod sync;
pub mod text;
pub mod util;
pub mod watch;
pub mod widgets;
