//! The lifecycle shared by both alert variants, and its errors.

use vstd::prelude::*;

verus! {

/// Where an alert stands in its construct, prompt, run, read cycle.
#[derive(Clone, Copy, Debug, PartialEq, Eq, Structural)]
pub enum AlertState {
    /// Constructed; no prompt attached, not yet run.
    Created,
    /// A prompt has been attached; not yet run.
    PromptAttached,
    /// The modal dialog is on screen and has not been dismissed.
    Running,
    /// The interaction is over; the prompt value is final.
    Finished,
}

/// Why an alert operation failed.
#[derive(Clone, Copy, Debug, PartialEq, Eq, Structural)]
pub enum AlertError {
    /// The input stream had no line left when a prompt value was needed.
    NoInputAvailable,
    /// A prompt control was needed to read the value but none is attached.
    NoPromptAttached,
    /// The platform could not provide a dialog.
    PlatformResourceUnavailable,
    /// The operation is not allowed in the alert's current state.
    OutOfOrder,
}

/// The abstract value of an alert.
pub struct AlertModel {
    /// The text shown to the user, fixed at construction.
    pub message: Seq<char>,
    pub state: AlertState,
    /// Whether a text-entry control has been attached.
    pub prompt_enabled: bool,
    /// What was entered; empty until there is something to report.
    pub prompt_value: Seq<char>,
}

/// The model of a freshly constructed alert showing `message`.
pub open spec fn created(message: Seq<char>) -> AlertModel {
    AlertModel {
        message,
        state: AlertState::Created,
        prompt_enabled: false,
        prompt_value: Seq::empty(),
    }
}

impl AlertState {
    /// Whether a prompt may still be attached.
    pub fn accepts_prompt(&self) -> (r: bool)
        ensures
            r == (*self == AlertState::Created),
    {
        matches!(self, AlertState::Created)
    }

    /// Whether the alert may be run: it has been neither run nor dismissed.
    pub fn may_run(&self) -> (r: bool)
        ensures
            r == (*self == AlertState::Created || *self == AlertState::PromptAttached),
    {
        match self {
            AlertState::Created => true,
            AlertState::PromptAttached => true,
            _ => false,
        }
    }
}

} // verus!
