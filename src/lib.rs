//! A modal alert with an optional one-line text prompt.
//!
//! Two variants share one lifecycle: construct, optionally attach a prompt,
//! run, then read what was entered.
//!
//! * [`linux::Alert`] is the console fallback: attaching the prompt is itself
//!   the step that collects the line, and running is a no-op.
//! * [`macos::Alert`] drives a native modal dialog with an embedded text
//!   field. The library decides each step; the caller performs the dialog
//!   work that it asks for and reports back what the field held.
//!
//! Both variants track their state explicitly and refuse calls made out of
//! order with [`state::AlertError::OutOfOrder`].

pub mod line;
pub mod linux;
pub mod macos;
pub mod state;
