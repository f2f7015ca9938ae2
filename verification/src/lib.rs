//! Package and task dispatch core of a multi-language agent-based
//! simulation engine, with its rules stated as contracts and proved.
//!
//! The core registers the creators of the init packages once, numbers the
//! packages and records what each depends on, represents the work of a
//! package as a task bound to one language runtime, and verifies every task's
//! access to the shared store before the task is handed to the worker pool.

pub mod access;
pub mod creators;
pub mod error;
pub mod id;
pub mod js_py;
pub mod link_type;
pub mod metadata;
pub mod name;
pub mod name_map;
pub mod task;

pub use access::{Access, TaskSharedStore};
pub use creators::{PackageCreator, PackageCreators};
pub use error::{ArgumentFault, Error};
pub use id::{PackageId, PackageIdGenerator, PackageType};
pub use js_py::{JsInitTask, JsPyInitTaskMessage, PyInitTask, StartMessage};
pub use link_type::LinkTypeResource;
pub use metadata::{init_package_ids, metadata, PackageMetadata};
pub use name::Name;
pub use name_map::NameMap;
pub use task::{InitTask, InitTaskMessage, MessageTarget, TargetedTaskMessage};
