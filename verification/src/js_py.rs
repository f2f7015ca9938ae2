//! Init tasks that run in the JavaScript and in the Python runtime, and the
//! messages exchanged with the workers that run them.

use crate::error::{ArgumentFault, Error};
use crate::task::{InitTaskMessage, MessageTarget, TargetedTaskMessage};
use vstd::prelude::*;

verus! {

/// The first message of an init task: the source that computes the initial
/// state.
#[derive(Debug, Clone, PartialEq, Eq)]
pub struct StartMessage {
    pub initial_state_source: String,
}

/// A message of an init task of either runtime.
#[derive(Debug, Clone, PartialEq, Eq)]
pub enum JsPyInitTaskMessage {
    StartMessage(StartMessage),
}

/// The start message that carries `source`.
pub open spec fn start_payload(source: String) -> InitTaskMessage {
    InitTaskMessage::JsPyInitTaskMessage(
        JsPyInitTaskMessage::StartMessage(StartMessage { initial_state_source: source }),
    )
}

/// Builds the start message for `source`, addressed to `target`.
fn start_message_for(source: &String, target: MessageTarget) -> (r: Result<
    TargetedTaskMessage,
    Error,
>)
    ensures
        source@.len() == 0 ==> r == Err::<TargetedTaskMessage, Error>(
            Error::TaskArgument(ArgumentFault::MissingInitialStateSource),
        ),
        source@.len() > 0 ==> r == Ok::<TargetedTaskMessage, Error>(
            TargetedTaskMessage { target, payload: start_payload(*source) },
        ),
{
    if source.as_str().is_empty() {
        Err(Error::TaskArgument(ArgumentFault::MissingInitialStateSource))
    } else {
        Ok(
            TargetedTaskMessage {
                target,
                payload: InitTaskMessage::JsPyInitTaskMessage(
                    JsPyInitTaskMessage::StartMessage(
                        StartMessage { initial_state_source: source.clone() },
                    ),
                ),
            },
        )
    }
}

/// An init task for the JavaScript runtime.
#[derive(Debug, Clone, PartialEq, Eq)]
pub struct JsInitTask {
    pub initial_state_source: String,
}

impl JsInitTask {
    pub fn get_task_name(&self) -> (name: &'static str)
        ensures
            name@ == "JsInit"@,
    {
        "JsInit"
    }

    /// The message that starts the task on a JavaScript worker. It is owed
    /// unless the source of the initial state is missing.
    pub fn start_message(&self) -> (r: Result<TargetedTaskMessage, Error>)
        ensures
            self.initial_state_source@.len() == 0 ==> r == Err::<TargetedTaskMessage, Error>(
                Error::TaskArgument(ArgumentFault::MissingInitialStateSource),
            ),
            self.initial_state_source@.len() > 0 ==> r == Ok::<TargetedTaskMessage, Error>(
                TargetedTaskMessage {
                    target: MessageTarget::JavaScript,
                    payload: start_payload(self.initial_state_source),
                },
            ),
    {
        start_message_for(&self.initial_state_source, MessageTarget::JavaScript)
    }
}

/// An init task for the Python runtime.
#[derive(Debug, Clone, PartialEq, Eq)]
pub struct PyInitTask {
    pub initial_state_source: String,
}

impl PyInitTask {
    pub fn get_task_name(&self) -> (name: &'static str)
        ensures
            name@ == "PyInit"@,
    {
        "PyInit"
    }

    /// The message that starts the task on a Python worker. It is owed unless
    /// the source of the initial state is missing.
    pub fn start_message(&self) -> (r: Result<TargetedTaskMessage, Error>)
        ensures
            self.initial_state_source@.len() == 0 ==> r == Err::<TargetedTaskMessage, Error>(
                Error::TaskArgument(ArgumentFault::MissingInitialStateSource),
            ),
            self.initial_state_source@.len() > 0 ==> r == Ok::<TargetedTaskMessage, Error>(
                TargetedTaskMessage {
                    target: MessageTarget::Python,
                    payload: start_payload(self.initial_state_source),
                },
            ),
    {
        start_message_for(&self.initial_state_source, MessageTarget::Python)
    }
}

} // verus!
