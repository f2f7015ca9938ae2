//! Decisions of the REST resource for link types.
//!
//! A request is served by a short series of store calls. This module decides,
//! from the outcome of each call, whether another call follows, whether the
//! stored link type is sent back, or which status answers a failure. The
//! caller performs the calls and hands back their outcomes.

use vstd::prelude::*;

verus! {

/// Status of a reply to a request that names a link type the store lacks.
pub const NOT_FOUND: u16 = 404;

/// Status of a reply to a request that would create a link type twice.
pub const CONFLICT: u16 = 409;

/// Status of a reply to a request that the store could not serve.
pub const INTERNAL_SERVER_ERROR: u16 = 500;

/// The three requests that the resource serves.
#[derive(Debug, Clone, Copy, PartialEq, Eq, Hash, Structural)]
pub enum Operation {
    Create,
    Get,
    Update,
}

/// A call to the store made while serving a request.
#[derive(Debug, Clone, Copy, PartialEq, Eq, Hash, Structural)]
pub enum StoreCall {
    /// Take a store from the pool.
    Acquire,
    /// Look up the version id that a versioned URI stands for.
    ResolveUri,
    /// Create, read or update the link type itself.
    Apply,
}

/// What the report of a failed store call contains.
#[derive(Debug, Clone, Copy, PartialEq, Eq, Hash, Structural)]
pub struct FailureReport {
    pub base_uri_already_exists: bool,
    pub base_uri_does_not_exist: bool,
    pub query_error: bool,
}

/// How a store call ended.
#[derive(Debug, Clone, Copy, PartialEq, Eq, Hash, Structural)]
pub enum Outcome {
    Completed,
    Failed(FailureReport),
}

/// What the handler does after a store call.
#[derive(Debug, Clone, Copy, PartialEq, Eq, Hash, Structural)]
pub enum Decision {
    /// Make this store call next.
    Call(StoreCall),
    /// Send the persisted link type back.
    Reply,
    /// Answer with this status and no body.
    Reject(u16),
}

/// The store call that follows a completed one, if any.
pub open spec fn call_after(operation: Operation, call: StoreCall) -> Option<StoreCall> {
    match call {
        StoreCall::Acquire => if operation == Operation::Get {
            Some(StoreCall::ResolveUri)
        } else {
            Some(StoreCall::Apply)
        },
        StoreCall::ResolveUri => Some(StoreCall::Apply),
        StoreCall::Apply => None,
    }
}

/// Whether a failure report says that the request itself, and not the store,
/// is at fault for the failed call.
pub open spec fn blames_request(operation: Operation, call: StoreCall, report: FailureReport) -> bool {
    match (operation, call) {
        (_, StoreCall::Acquire) => false,
        (Operation::Create, StoreCall::Apply) => report.base_uri_already_exists,
        (Operation::Update, StoreCall::Apply) => report.base_uri_does_not_exist,
        (Operation::Get, _) => report.query_error,
        _ => false,
    }
}

/// The status that answers a failed store call.
pub open spec fn failure_status(operation: Operation, call: StoreCall, report: FailureReport) -> u16 {
    if !blames_request(operation, call, report) {
        INTERNAL_SERVER_ERROR
    } else if operation == Operation::Create {
        CONFLICT
    } else {
        NOT_FOUND
    }
}

/// Web resource for create, read and update operations on link types.
#[derive(Debug, Clone, Copy, PartialEq, Eq, Hash, Structural)]
pub struct LinkTypeResource;

impl LinkTypeResource {
    /// The first store call of every request.
    pub fn first_call(operation: Operation) -> (call: StoreCall)
        ensures
            call == StoreCall::Acquire,
    {
        StoreCall::Acquire
    }

    /// Decides what follows a store call.
    ///
    /// A failed call ends the request with `failure_status`. A completed call
    /// is followed by the next call of the operation; after the last one the
    /// link type is sent back.
    pub fn decide(operation: Operation, call: StoreCall, outcome: Outcome) -> (decision: Decision)
        ensures
            outcome matches Outcome::Failed(report) ==> decision == Decision::Reject(
                failure_status(operation, call, report),
            ),
            outcome is Completed ==> match call_after(operation, call) {
                Some(next) => decision == Decision::Call(next),
                None => decision == Decision::Reply,
            },
    {
        match outcome {
            Outcome::Failed(report) => {
                let at_fault = match call {
                    StoreCall::Acquire => false,
                    StoreCall::ResolveUri => match operation {
                        Operation::Get => report.query_error,
                        _ => false,
                    },
                    StoreCall::Apply => match operation {
                        Operation::Create => report.base_uri_already_exists,
                        Operation::Get => report.query_error,
                        Operation::Update => report.base_uri_does_not_exist,
                    },
                };
                if !at_fault {
                    Decision::Reject(INTERNAL_SERVER_ERROR)
                } else {
                    match operation {
                        Operation::Create => Decision::Reject(CONFLICT),
                        _ => Decision::Reject(NOT_FOUND),
                    }
                }
            },
            Outcome::Completed => match call {
                StoreCall::Acquire => match operation {
                    Operation::Get => Decision::Call(StoreCall::ResolveUri),
                    _ => Decision::Call(StoreCall::Apply),
                },
                StoreCall::ResolveUri => Decision::Call(StoreCall::Apply),
                StoreCall::Apply => Decision::Reply,
            },
        }
    }
}

/// Number of store calls still to be made once `call` has completed.
pub open spec fn calls_left(operation: Operation, call: StoreCall) -> nat
    decreases
        (match call {
            StoreCall::Acquire => 2nat,
            StoreCall::ResolveUri => 1nat,
            StoreCall::Apply => 0nat,
        }),
{
    match call_after(operation, call) {
        Some(next) => 1 + calls_left(operation, next),
        None => 0,
    }
}

/// Every request ends: no operation makes more than three store calls.
pub proof fn lemma_requests_end(operation: Operation)
    ensures
        calls_left(operation, StoreCall::Acquire) <= 2,
        operation == Operation::Get <==> calls_left(operation, StoreCall::Acquire) == 2,
{
    reveal_with_fuel(calls_left, 4);
}

/// A failure is answered with one of three statuses, and a failure to take a
/// store from the pool always with an internal server error.
pub proof fn lemma_failure_statuses(operation: Operation, call: StoreCall, report: FailureReport)
    ensures
        failure_status(operation, call, report) == NOT_FOUND || failure_status(
            operation,
            call,
            report,
        ) == CONFLICT || failure_status(operation, call, report) == INTERNAL_SERVER_ERROR,
        call == StoreCall::Acquire ==> failure_status(operation, call, report)
            == INTERNAL_SERVER_ERROR,
        failure_status(operation, call, report) == CONFLICT ==> operation == Operation::Create
            && report.base_uri_already_exists,
{
}

} // verus!
