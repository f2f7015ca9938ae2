//! Init tasks as a closed union over the runtimes, and the rule that guards
//! each of them before it is handed to the worker pool.

use crate::access::{Access, TaskSharedStore};
use crate::error::{ArgumentFault, Error};
use crate::id::PackageType;
use crate::js_py::{start_payload, JsInitTask, JsPyInitTaskMessage, PyInitTask};
use vstd::prelude::*;

verus! {

/// The runtime that a message is addressed to.
#[derive(Debug, Clone, Copy, PartialEq, Eq, Hash, Structural)]
pub enum MessageTarget {
    Python,
    JavaScript,
}

/// All init package task messages are registered in this enum.
#[derive(Debug, Clone, PartialEq, Eq)]
pub enum InitTaskMessage {
    JsPyInitTaskMessage(JsPyInitTaskMessage),
}

/// A message together with the runtime whose worker is to receive it.
#[derive(Debug, Clone, PartialEq, Eq)]
pub struct TargetedTaskMessage {
    pub target: MessageTarget,
    pub payload: InitTaskMessage,
}

/// All init package tasks are registered in this enum.
#[derive(Debug, Clone, PartialEq, Eq)]
pub enum InitTask {
    JsInitTask(JsInitTask),
    PyInitTask(PyInitTask),
}

impl InitTask {
    /// The category whose access rule holds for every init task.
    pub open spec fn category() -> PackageType {
        PackageType::Init
    }

    /// The name under which telemetry lists the task.
    pub open spec fn task_name(&self) -> Seq<char> {
        match self {
            InitTask::JsInitTask(_) => "JsInit"@,
            InitTask::PyInitTask(_) => "PyInit"@,
        }
    }

    /// The runtime that runs the task.
    pub open spec fn target(&self) -> MessageTarget {
        match self {
            InitTask::JsInitTask(_) => MessageTarget::JavaScript,
            InitTask::PyInitTask(_) => MessageTarget::Python,
        }
    }

    /// The source of the initial state that the task carries.
    pub open spec fn initial_state_source(&self) -> String {
        match self {
            InitTask::JsInitTask(inner) => inner.initial_state_source,
            InitTask::PyInitTask(inner) => inner.initial_state_source,
        }
    }

    /// Whether the task holds what its start message needs.
    pub open spec fn has_arguments(&self) -> bool {
        self.initial_state_source()@.len() > 0
    }

    /// The start message of a task that holds its arguments.
    pub open spec fn start_message_of(&self) -> TargetedTaskMessage {
        TargetedTaskMessage {
            target: self.target(),
            payload: start_payload(self.initial_state_source()),
        }
    }

    /// The failure that answers a request for disallowed access.
    pub open spec fn access_denied(access: TaskSharedStore) -> Error {
        Error::AccessNotAllowed { store: access, category: Self::category() }
    }

    pub fn get_task_name(&self) -> (name: &'static str)
        ensures
            name@ == self.task_name(),
    {
        match self {
            Self::JsInitTask(inner) => inner.get_task_name(),
            Self::PyInitTask(inner) => inner.get_task_name(),
        }
    }

    /// The message that starts the task on a worker of its runtime. It is owed
    /// exactly when the task holds its arguments.
    pub fn start_message(&self) -> (r: Result<TargetedTaskMessage, Error>)
        ensures
            self.has_arguments() ==> r == Ok::<TargetedTaskMessage, Error>(self.start_message_of()),
            !self.has_arguments() ==> r == Err::<TargetedTaskMessage, Error>(
                Error::TaskArgument(ArgumentFault::MissingInitialStateSource),
            ),
    {
        match self {
            Self::JsInitTask(inner) => inner.start_message(),
            Self::PyInitTask(inner) => inner.start_message(),
        }
    }

    /// What the guard before the worker pool answers for a task and the access
    /// it asks for: the start message where the task holds its arguments and
    /// asks for nothing, and else the failure that keeps it from the pool.
    pub open spec fn handoff_of(&self, access: TaskSharedStore) -> Result<
        TargetedTaskMessage,
        Error,
    > {
        if !self.has_arguments() {
            Err(Error::TaskArgument(ArgumentFault::MissingInitialStateSource))
        } else if !access.asks_nothing() {
            Err(Self::access_denied(access))
        } else {
            Ok(self.start_message_of())
        }
    }

    /// Decides whether the task may be handed to the worker pool.
    ///
    /// The task is accepted only where its start message can be built and the
    /// access it asks for is allowed; the message is then what the pool is
    /// sent. In every other case the pool is sent nothing.
    pub fn handoff(&self, access: &TaskSharedStore) -> (r: Result<TargetedTaskMessage, Error>)
        ensures
            r == self.handoff_of(*access),
    {
        let message = self.start_message()?;
        self.verify_store_access(access)?;
        Ok(message)
    }

    /// Checks the access that the task asks for against the rule for init
    /// tasks: they run before any agent state exists, so they may ask for
    /// neither the state nor the context.
    pub fn verify_store_access(&self, access: &TaskSharedStore) -> (r: Result<(), Error>)
        ensures
            access.asks_nothing() ==> r == Ok::<(), Error>(()),
            !access.asks_nothing() ==> r == Err::<(), Error>(Self::access_denied(*access)),
    {
        let state = &access.state;
        let context = access.context();
        if state.is_disabled() && context.is_disabled() {
            Ok(())
        } else {
            Err(Error::AccessNotAllowed { store: *access, category: PackageType::Init })
        }
    }
}

/// A task is handed to the worker pool exactly when it can build its start
/// message and its access is allowed, and then with that very message.
pub proof fn lemma_handoff_needs_both(task: InitTask, access: TaskSharedStore)
    ensures
        task.handoff_of(access) is Ok <==> task.has_arguments() && access.asks_nothing(),
        task.handoff_of(access) is Ok ==> task.handoff_of(access) == Ok::<
            TargetedTaskMessage,
            Error,
        >(task.start_message_of()),
{
}

/// Of the four requests for access, an init task is allowed the one that asks
/// for nothing; each of the other three is denied with a failure that holds
/// the request as it was made and the tag of the init category.
pub proof fn lemma_init_access_rule(access: TaskSharedStore)
    ensures
        access.asks_nothing() <==> access == (TaskSharedStore {
            state: Access::Disabled,
            context: Access::Disabled,
        }),
        InitTask::access_denied(access) matches Error::AccessNotAllowed { store, category }
            && store == access && category.tag() == "Init"@,
{
}

/// The name of a task is not empty.
pub proof fn lemma_task_name_not_empty(task: InitTask)
    ensures
        task.task_name().len() > 0,
{
    reveal_strlit("JsInit");
    reveal_strlit("PyInit");
}

} // verus!
