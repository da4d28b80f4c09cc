//! Keeps GPU rendering contexts consistent with native windows that the
//! operating system may take away (suspend) and give back (resume).
//!
//! The [`context`] module holds the per-window state machine; the
//! [`registry`] module routes lifecycle notifications from an event stream to
//! the context that owns the affected window, without owning that context.
pub mod context;
pub mod registry;
pub mod headless;
