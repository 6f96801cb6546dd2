//! Platforms without a Service Control Manager.

use vstd::prelude::*;

use std::path::PathBuf;

use crate::service::{Dispatch, ServiceError};

verus! {

/// Always unsupported.
pub fn install(_exe: &PathBuf) -> (installed: Result<(), ServiceError>)
    ensures
        installed == Err::<(), ServiceError>(ServiceError::Unsupported),
{
    Err(ServiceError::Unsupported)
}

/// Always unsupported.
pub fn uninstall() -> (removed: Result<(), ServiceError>)
    ensures
        removed == Err::<(), ServiceError>(ServiceError::Unsupported),
{
    Err(ServiceError::Unsupported)
}

/// There is no SCM, so a bare invocation is always interactive.
pub fn run_dispatcher() -> (dispatched: Result<Dispatch, ServiceError>)
    ensures
        dispatched == Ok::<Dispatch, ServiceError>(Dispatch::NotAService),
{
    Ok(Dispatch::NotAService)
}

} // verus!
