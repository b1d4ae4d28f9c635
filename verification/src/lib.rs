//! Configuration resolution for an installer: given a target installation
//! root and a retry flag, derive every filesystem path the rest of the
//! installer needs, together with a human-readable display form of the root.
//!
//! The resolver performs no I/O of its own: it is pure path-string
//! composition. Resolving the root to an absolute path for display is the
//! hosting application's job; the resolver only selects between that result
//! and a fixed fallback message.

pub mod config;
pub mod display;
