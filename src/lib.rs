//! Decision logic of a desktop application shell: which background colour a
//! theme label selects, and how the update commands move from the updater's
//! answers to the reply that the webview receives.

pub mod theme;
pub mod update;
