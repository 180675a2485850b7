//! Decisions of the HTTP boundary over the supervision core: which status a
//! request on a process gets.
use crate::manager::StartError;
use crate::process::ProcessState;
use vstd::prelude::*;

verus! {

pub const STATUS_OK: u16 = 200;

pub const STATUS_NO_CONTENT: u16 = 204;

pub const STATUS_BAD_REQUEST: u16 = 400;

pub const STATUS_UNAUTHORIZED: u16 = 401;

pub const STATUS_FORBIDDEN: u16 = 403;

pub const STATUS_NOT_FOUND: u16 = 404;

pub const STATUS_NOT_ACCEPTABLE: u16 = 406;

pub const STATUS_CONFLICT: u16 = 409;

pub const STATUS_INTERNAL_ERROR: u16 = 500;

/// The key of an instance in the record store, which holds 32-bit signed
/// ids; a larger id is a bad request.
pub fn instance_key(id: u64) -> (r: Option<i32>)
    ensures
        id <= i32::MAX ==> r == Some(id as i32),
        id > i32::MAX ==> r is None,
{
    if id <= 2147483647 {
        Some(id as i32)
    } else {
        None
    }
}

/// The status of a refused start: a conflict.
pub fn start_refusal_status(e: StartError) -> (r: u16)
    ensures
        r == STATUS_CONFLICT,
{
    match e {
        StartError::Conflict => STATUS_CONFLICT,
    }
}

/// Whether a record counts as present: only a live one does; a dead record
/// is treated as absent.
pub open spec fn is_present(state: Option<ProcessState>) -> bool {
    state == Some(ProcessState::Alive)
}

/// The status of a liveness request, also the one that decides whether a
/// kill or a terminal may go ahead: found for a live record, not found for
/// a dead or missing one.
pub fn liveness_status(state: Option<ProcessState>) -> (r: u16)
    ensures
        is_present(state) ==> r == STATUS_OK,
        !is_present(state) ==> r == STATUS_NOT_FOUND,
{
    match state {
        Some(ProcessState::Alive) => STATUS_OK,
        _ => STATUS_NOT_FOUND,
    }
}

/// The offset a terminal client starts tailing from: the current log size,
/// or 0 where it could not be read.
pub fn log_begin<E>(size: Result<u64, E>) -> (r: u64)
    ensures
        match size {
            Ok(n) => r == n,
            Err(_) => r == 0,
        },
{
    match size {
        Ok(n) => n,
        Err(_) => 0,
    }
}

/// The error a finished task ended with, if any: the error of the task
/// itself, or the failure to join it.
pub fn just_get_error<E>(r: Result<Result<(), E>, E>) -> (e: Option<E>)
    ensures
        match r {
            Ok(Ok(())) => e is None,
            Ok(Err(x)) => e == Some(x),
            Err(x) => e == Some(x),
        },
{
    match r {
        Ok(result) => match result {
            Ok(_) => None,
            Err(e) => Some(e),
        },
        Err(e) => Some(e),
    }
}

} // verus!
