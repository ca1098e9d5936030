//! What the screen shows, as plain values: the tabs, the lines of the
//! passage with the state of each character, and the numbers of the gauges
//! and of the summary.
//!
//! Nothing here draws. A front end turns these values into widgets.

pub mod chart;
pub mod common_ui;
pub mod tabs;
pub mod typing_ui;
