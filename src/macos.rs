//! The native variant: a modal dialog with an OK and a Cancel button and an
//! optional embedded text field.
//!
//! The dialog itself lives with the caller. This type decides each step and
//! tells the caller what to do: [`Alert::add_prompt`] gives the frame of the
//! text field to embed, [`Alert::run`] allows the modal run, and
//! [`Alert::finish_run`] takes what the field held once the dialog was
//! dismissed. With no prompt attached, the prompt value is the empty string.

use vstd::prelude::*;

use crate::state::{created, AlertError, AlertModel, AlertState};

verus! {

/// The x coordinate of the prompt field within the dialog's accessory area.
pub const PROMPT_X: u32 = 0;
/// The y coordinate of the prompt field within the dialog's accessory area.
pub const PROMPT_Y: u32 = 0;
/// The width of the prompt field.
pub const PROMPT_WIDTH: u32 = 200;
/// The height of the prompt field.
pub const PROMPT_HEIGHT: u32 = 24;

/// The geometry of a control inside the dialog.
#[derive(Clone, Copy, Debug, PartialEq, Eq, Structural)]
pub struct FieldFrame {
    pub x: u32,
    pub y: u32,
    pub width: u32,
    pub height: u32,
}

/// The frame that every prompt field is created with.
pub open spec fn prompt_frame() -> FieldFrame {
    FieldFrame { x: PROMPT_X, y: PROMPT_Y, width: PROMPT_WIDTH, height: PROMPT_HEIGHT }
}

/// An alert backed by a native modal dialog.
pub struct Alert {
    message: String,
    state: AlertState,
    prompt_enabled: bool,
    entered: String,
}

/// What holds of every native alert that the operations can reach.
pub open spec fn native_inv(a: AlertModel) -> bool {
    &&& a.state == AlertState::Created ==> !a.prompt_enabled
    &&& a.state == AlertState::PromptAttached ==> a.prompt_enabled
    &&& (!a.prompt_enabled || a.state != AlertState::Finished) ==> a.prompt_value.len() == 0
}

/// The effect of attaching a prompt: the new model, and the frame of the
/// text field that the caller embeds in the dialog.
pub open spec fn add_prompt_step(a: AlertModel) -> (AlertModel, Result<FieldFrame, AlertError>) {
    if a.state == AlertState::Created {
        (AlertModel { state: AlertState::PromptAttached, prompt_enabled: true, ..a }, Ok(prompt_frame()))
    } else {
        (a, Err(AlertError::OutOfOrder))
    }
}

/// The effect of asking to run the dialog modally.
pub open spec fn run_step(a: AlertModel) -> (AlertModel, Result<(), AlertError>) {
    if a.state == AlertState::Created || a.state == AlertState::PromptAttached {
        (AlertModel { state: AlertState::Running, ..a }, Ok(()))
    } else {
        (a, Err(AlertError::OutOfOrder))
    }
}

/// The effect of the dialog's dismissal, given what its text field held
/// (ignored when no prompt is attached).
pub open spec fn finish_step(a: AlertModel, field_text: Seq<char>) -> (AlertModel, Result<(), AlertError>) {
    if a.state == AlertState::Running {
        (
            AlertModel {
                state: AlertState::Finished,
                prompt_value: if a.prompt_enabled { field_text } else { Seq::empty() },
                ..a
            },
            Ok(()),
        )
    } else {
        (a, Err(AlertError::OutOfOrder))
    }
}

impl View for Alert {
    type V = AlertModel;

    closed spec fn view(&self) -> AlertModel {
        AlertModel {
            message: self.message@,
            state: self.state,
            prompt_enabled: self.prompt_enabled,
            prompt_value: self.entered@,
        }
    }
}

impl Alert {
    /// Creates an alert showing `message_text`, with no prompt attached.
    pub fn new(message_text: &str) -> (r: Alert)
        ensures
            r@ == created(message_text@),
    {
        Alert {
            message: message_text.to_owned(),
            state: AlertState::Created,
            prompt_enabled: false,
            entered: String::new(),
        }
    }

    /// The message shown to the user.
    pub fn message(&self) -> (r: &str)
        ensures
            r@ == self@.message,
    {
        self.message.as_str()
    }

    /// The current state of the alert.
    pub fn state(&self) -> (r: AlertState)
        ensures
            r == self@.state,
    {
        self.state
    }

    /// Whether a text field is attached to the dialog.
    pub fn has_prompt(&self) -> (r: bool)
        ensures
            r == self@.prompt_enabled,
    {
        self.prompt_enabled
    }

    /// Attaches a text field to the dialog and returns the frame to create it
    /// with; the caller embeds it and has the dialog lay itself out again.
    ///
    /// Fails with `OutOfOrder` unless the alert is freshly constructed.
    pub fn add_prompt(&mut self) -> (r: Result<FieldFrame, AlertError>)
        ensures
            final(self)@ == add_prompt_step(old(self)@).0,
            r == add_prompt_step(old(self)@).1,
    {
        if !self.state.accepts_prompt() {
            return Err(AlertError::OutOfOrder);
        }
        self.prompt_enabled = true;
        self.state = AlertState::PromptAttached;
        Ok(FieldFrame { x: PROMPT_X, y: PROMPT_Y, width: PROMPT_WIDTH, height: PROMPT_HEIGHT })
    }

    /// Marks the dialog as on screen; on `Ok` the caller runs it modally and
    /// then reports its dismissal with [`Alert::finish_run`].
    ///
    /// Fails with `OutOfOrder` if the alert has already been run.
    pub fn run(&mut self) -> (r: Result<(), AlertError>)
        ensures
            final(self)@ == run_step(old(self)@).0,
            r == run_step(old(self)@).1,
    {
        if !self.state.may_run() {
            return Err(AlertError::OutOfOrder);
        }
        self.state = AlertState::Running;
        Ok(())
    }

    /// Records the dismissal of the dialog and, when a prompt is attached,
    /// what its text field held then.
    ///
    /// Fails with `OutOfOrder` unless the dialog is running.
    pub fn finish_run(&mut self, field_text: &str) -> (r: Result<(), AlertError>)
        ensures
            final(self)@ == finish_step(old(self)@, field_text@).0,
            r == finish_step(old(self)@, field_text@).1,
    {
        if self.state != AlertState::Running {
            return Err(AlertError::OutOfOrder);
        }
        if self.prompt_enabled {
            self.entered = field_text.to_owned();
        } else {
            self.entered = String::new();
        }
        self.state = AlertState::Finished;
        Ok(())
    }

    /// What was entered in the text field, or the empty string if no prompt
    /// is attached or the dialog has not been dismissed yet.
    pub fn prompt_value(&self) -> (r: String)
        ensures
            r@ == self@.prompt_value,
    {
        self.entered.clone()
    }
}

/// Before any prompt is attached the prompt value is the empty string, and
/// it stays so through the whole cycle of a dialog without a prompt.
pub proof fn lemma_no_prompt_reads_empty(m: Seq<char>, field_text: Seq<char>)
    ensures
        created(m).prompt_value == Seq::<char>::empty(),
        run_step(created(m)).0.prompt_value == Seq::<char>::empty(),
        finish_step(run_step(created(m)).0, field_text).0.prompt_value == Seq::<char>::empty(),
{
}

/// Every operation keeps the native invariant.
pub proof fn lemma_steps_keep_inv(a: AlertModel, field_text: Seq<char>)
    requires
        native_inv(a),
    ensures
        native_inv(add_prompt_step(a).0),
        native_inv(run_step(a).0),
        native_inv(finish_step(a, field_text).0),
{
}

/// After a prompt is attached and the dialog run and dismissed, the prompt
/// value is exactly what the field held.
pub proof fn lemma_prompt_reads_field(m: Seq<char>, field_text: Seq<char>)
    ensures
        ({
            let a1 = add_prompt_step(created(m)).0;
            let a2 = run_step(a1).0;
            let a3 = finish_step(a2, field_text).0;
            &&& add_prompt_step(created(m)).1 == Ok::<FieldFrame, AlertError>(prompt_frame())
            &&& run_step(a1).1 == Ok::<(), AlertError>(())
            &&& finish_step(a2, field_text).1 == Ok::<(), AlertError>(())
            &&& a3.prompt_value == field_text
        }),
{
}

} // verus!
