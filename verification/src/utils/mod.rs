//! Helpers that are no part of prompt composition.

pub mod ureq_unix;
