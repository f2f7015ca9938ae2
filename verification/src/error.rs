//! The failures that the dispatch core reports.

use crate::access::TaskSharedStore;
use crate::id::PackageType;
use crate::name::Name;
use vstd::prelude::*;

verus! {

/// What is wrong with the arguments of a task.
#[derive(Debug, Clone, Copy, PartialEq, Eq, Hash, Structural)]
pub enum ArgumentFault {
    /// The task holds no source for the initial state.
    MissingInitialStateSource,
}

/// A failure of the dispatch core. None is retried: each follows from the
/// inputs alone.
#[derive(Debug, Clone, Copy, PartialEq, Eq, Hash, Structural)]
pub enum Error {
    /// The constructor of this package refused the experiment configuration.
    Configuration(Name),
    /// The package creators were published before.
    AlreadyInitialized,
    /// The package creators were not published yet.
    NotInitialized,
    /// No creator was published under this name.
    UnknownPackage(Name),
    /// A task of this category asked for access that its category is denied.
    AccessNotAllowed { store: TaskSharedStore, category: PackageType },
    /// A task cannot build its start message.
    TaskArgument(ArgumentFault),
}

} // verus!
