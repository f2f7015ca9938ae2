//! What a task asks of the shared store.

use vstd::prelude::*;

verus! {

/// Whether a task asks for one part of the shared store.
#[derive(Debug, Clone, Copy, PartialEq, Eq, Hash, Structural)]
pub enum Access {
    Enabled,
    Disabled,
}

impl Access {
    pub fn is_disabled(&self) -> (disabled: bool)
        ensures
            disabled == (*self == Access::Disabled),
    {
        match self {
            Access::Disabled => true,
            Access::Enabled => false,
        }
    }
}

/// A snapshot of the access that a task asks for: to the state of the agents,
/// which tasks may change, and to the context, which they may only read.
#[derive(Debug, Clone, Copy, PartialEq, Eq, Hash, Structural)]
pub struct TaskSharedStore {
    pub state: Access,
    pub context: Access,
}

impl TaskSharedStore {
    pub fn new(state: Access, context: Access) -> (store: TaskSharedStore)
        ensures
            store.state == state,
            store.context == context,
    {
        TaskSharedStore { state, context }
    }

    pub fn context(&self) -> (context: &Access)
        ensures
            *context == self.context,
    {
        &self.context
    }

    /// Whether the task asks for no part of the shared store.
    pub open spec fn asks_nothing(&self) -> bool {
        self.state == Access::Disabled && self.context == Access::Disabled
    }
}

} // verus!
