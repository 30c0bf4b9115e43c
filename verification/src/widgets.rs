//! State of the panels.

pub mod branches_view;
pub mod commit_view;
pub mod diff_view;
pub mod graph_view;
pub mod list;
pub mod models_view;
pub mod window;
