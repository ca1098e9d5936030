//! A typing-speed test engine.
//!
//! [`type_test`] holds the typing session: the passage, what was typed, the
//! counts, the timer and the per-second history. [`metrics`] holds the two
//! measures of a test as exact fractions, and [`clock`] reads the time.
//! [`app`] is the controller that takes keys and moves a test from its start
//! screen to its end, with the user's choices in [`app_options`].
//! [`text_gen`] and [`game`] make passages, and [`ui`] says what the screen
//! shows. Nothing in the library reads a key, opens a file or draws.

pub mod app;
pub mod app_options;
pub mod clock;
pub mod game;
pub mod metrics;
pub mod options;
pub mod text;
pub mod text_gen;
pub mod ui;
