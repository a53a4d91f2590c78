//! Renders a powerline-style shell prompt from independently computed segments.
//!
//! The crate is the pure core of a prompt generator: callers probe the
//! environment (repository state, cluster context, container daemon, ...),
//! hand the facts to the segment generators defined here, and print the string
//! that [`powerline::Powerline::prompt`] returns.

pub mod configuration;
pub mod error;
pub mod flags;
pub mod fonts;
pub mod powerline;
pub mod segments;
pub mod shell;
pub mod text;
pub mod theme;
pub mod utils;
