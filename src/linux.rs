//! The console fallback, for hosts without a windowing system.
//!
//! Attaching the prompt is the step that collects input: the caller reads one
//! line from standard input and hands it to [`Alert::add_prompt`]. Running is
//! a no-op, since the interaction is already over by then.

use vstd::prelude::*;

use crate::line::{is_single_line, lemma_single_line_round_trip, strip_line_terminator, without_terminator};
use crate::state::{created, AlertError, AlertModel, AlertState};

verus! {

/// An alert that reads its prompt value from a line of console input.
pub struct Alert {
    message: String,
    state: AlertState,
    prompt_enabled: bool,
    url: String,
}

/// What holds of every console alert that the operations can reach.
pub open spec fn console_inv(a: AlertModel) -> bool {
    &&& a.state != AlertState::Running
    &&& a.state == AlertState::Created ==> !a.prompt_enabled
    &&& a.state == AlertState::PromptAttached ==> a.prompt_enabled
    &&& !a.prompt_enabled ==> a.prompt_value.len() == 0
}

/// The effect of attaching a prompt, given the line read from input
/// (`None` when the input was exhausted): the new model and the outcome.
pub open spec fn add_prompt_step(a: AlertModel, line: Option<Seq<char>>) -> (AlertModel, Result<(), AlertError>) {
    if a.state != AlertState::Created {
        (a, Err(AlertError::OutOfOrder))
    } else {
        match line {
            None => (a, Err(AlertError::NoInputAvailable)),
            Some(l) => (
                AlertModel {
                    state: AlertState::PromptAttached,
                    prompt_enabled: true,
                    prompt_value: without_terminator(l),
                    ..a
                },
                Ok(()),
            ),
        }
    }
}

/// The effect of running: it only closes the interaction.
pub open spec fn run_step(a: AlertModel) -> (AlertModel, Result<(), AlertError>) {
    if a.state == AlertState::Created || a.state == AlertState::PromptAttached {
        (AlertModel { state: AlertState::Finished, ..a }, Ok(()))
    } else {
        (a, Err(AlertError::OutOfOrder))
    }
}

impl View for Alert {
    type V = AlertModel;

    closed spec fn view(&self) -> AlertModel {
        AlertModel {
            message: self.message@,
            state: self.state,
            prompt_enabled: self.prompt_enabled,
            prompt_value: self.url@,
        }
    }
}

impl Alert {
    /// Creates an alert showing `message_text`, with no prompt attached.
    pub fn new(message_text: &str) -> (r: Alert)
        ensures
            r@ == created(message_text@),
    {
        Alert {
            message: message_text.to_owned(),
            state: AlertState::Created,
            prompt_enabled: false,
            url: String::new(),
        }
    }

    /// The message shown to the user.
    pub fn message(&self) -> (r: &str)
        ensures
            r@ == self@.message,
    {
        self.message.as_str()
    }

    /// The current state of the alert.
    pub fn state(&self) -> (r: AlertState)
        ensures
            r == self@.state,
    {
        self.state
    }

    /// Attaches the prompt, taking as its value the line that was read from
    /// input (`None` when the input was exhausted), without its terminator.
    ///
    /// Fails with `OutOfOrder` unless the alert is freshly constructed, and
    /// with `NoInputAvailable` when there was no line; the alert is then
    /// left as it was.
    pub fn add_prompt(&mut self, line: Option<String>) -> (r: Result<(), AlertError>)
        ensures
            final(self)@ == add_prompt_step(old(self)@, line.deep_view()).0,
            r == add_prompt_step(old(self)@, line.deep_view()).1,
    {
        if !self.state.accepts_prompt() {
            return Err(AlertError::OutOfOrder);
        }
        match line {
            None => Err(AlertError::NoInputAvailable),
            Some(l) => {
                self.url = strip_line_terminator(l.as_str());
                self.prompt_enabled = true;
                self.state = AlertState::PromptAttached;
                Ok(())
            },
        }
    }

    /// Runs the alert. Nothing is shown: it only marks the interaction as
    /// over, leaving the prompt value as it was.
    ///
    /// Fails with `OutOfOrder` if the alert has already been run.
    pub fn run(&mut self) -> (r: Result<(), AlertError>)
        ensures
            final(self)@ == run_step(old(self)@).0,
            r == run_step(old(self)@).1,
    {
        if !self.state.may_run() {
            return Err(AlertError::OutOfOrder);
        }
        self.state = AlertState::Finished;
        Ok(())
    }

    /// The line entered at the prompt, or the empty string if no prompt was
    /// attached.
    pub fn prompt_value(&self) -> (r: String)
        ensures
            r@ == self@.prompt_value,
    {
        self.url.clone()
    }
}

/// A freshly constructed alert reports an empty prompt value, whatever its
/// message.
pub proof fn lemma_new_value_is_empty(m: Seq<char>)
    ensures
        created(m).prompt_value == Seq::<char>::empty(),
        console_inv(created(m)),
{
}

/// Every operation keeps the console invariant.
pub proof fn lemma_steps_keep_inv(a: AlertModel, line: Option<Seq<char>>)
    requires
        console_inv(a),
    ensures
        console_inv(add_prompt_step(a, line).0),
        console_inv(run_step(a).0),
{
}

/// A single line supplied on input, with or without its terminator, is
/// exactly what a new alert reports after the prompt is attached.
pub proof fn lemma_prompt_reads_line(m: Seq<char>, s: Seq<char>)
    requires
        s.len() > 0,
        is_single_line(s),
    ensures
        add_prompt_step(created(m), Some(s)).1 == Ok::<(), AlertError>(()),
        add_prompt_step(created(m), Some(s)).0.prompt_value == s,
        add_prompt_step(created(m), Some(s.push('\n'))).1 == Ok::<(), AlertError>(()),
        add_prompt_step(created(m), Some(s.push('\n'))).0.prompt_value == s,
        add_prompt_step(created(m), Some(s + seq!['\r', '\n'])).1 == Ok::<(), AlertError>(()),
        add_prompt_step(created(m), Some(s + seq!['\r', '\n'])).0.prompt_value == s,
{
    lemma_single_line_round_trip(s);
}

/// Attaching a prompt when input is exhausted fails with `NoInputAvailable`
/// and leaves the alert, and its empty value, unchanged.
pub proof fn lemma_exhausted_input_fails(a: AlertModel)
    requires
        a.state == AlertState::Created,
    ensures
        add_prompt_step(a, None).1 == Err::<(), AlertError>(AlertError::NoInputAvailable),
        add_prompt_step(a, None).0 == a,
{
}

/// Running never changes the prompt value, whether it succeeds or not.
pub proof fn lemma_run_keeps_value(a: AlertModel)
    ensures
        run_step(a).0.prompt_value == a.prompt_value,
        run_step(a).0.prompt_enabled == a.prompt_enabled,
        run_step(a).0.message == a.message,
{
}

} // verus!
