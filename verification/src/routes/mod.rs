//! The decisions of the service's routes.
use vstd::prelude::*;

pub mod messages;
pub mod trees;

verus! {

/// How a request is refused.
#[derive(Debug, Clone, Copy, PartialEq, Eq, Structural)]
pub enum ErrorStatus {
    BadRequest,
    NotFound,
    Conflict,
    InternalServerError,
}

/// The outcome of looking a record up in the store.
pub enum Lookup<T> {
    Found(T),
    NotFound,
    Failed,
}

/// A record that must not exist yet: found is a conflict, a failed lookup an
/// internal error.
pub fn must_be_absent<T>(lookup: Lookup<T>) -> (res: Result<(), ErrorStatus>)
    ensures
        res == match lookup {
            Lookup::Found(_) => Err(ErrorStatus::Conflict),
            Lookup::NotFound => Ok(()),
            Lookup::Failed => Err(ErrorStatus::InternalServerError),
        },
{
    match lookup {
        Lookup::Found(_) => Err(ErrorStatus::Conflict),
        Lookup::NotFound => Ok(()),
        Lookup::Failed => Err(ErrorStatus::InternalServerError),
    }
}

/// A record that must exist: not found is answered as such, a failed lookup
/// as an internal error.
pub fn must_be_found<T>(lookup: Lookup<T>) -> (res: Result<T, ErrorStatus>)
    ensures
        res == match lookup {
            Lookup::Found(t) => Ok(t),
            Lookup::NotFound => Err(ErrorStatus::NotFound),
            Lookup::Failed => Err(ErrorStatus::InternalServerError),
        },
{
    match lookup {
        Lookup::Found(t) => Ok(t),
        Lookup::NotFound => Err(ErrorStatus::NotFound),
        Lookup::Failed => Err(ErrorStatus::InternalServerError),
    }
}

/// A list that may be missing: missing is empty, a failed lookup an internal
/// error.
pub fn found_or_empty<T>(lookup: Lookup<Vec<T>>) -> (res: Result<Vec<T>, ErrorStatus>)
    ensures
        match lookup {
            Lookup::Found(v) => res == Ok::<Vec<T>, ErrorStatus>(v),
            Lookup::NotFound => res matches Ok(v) && v@.len() == 0,
            Lookup::Failed => res == Err::<Vec<T>, ErrorStatus>(ErrorStatus::InternalServerError),
        },
{
    match lookup {
        Lookup::Found(v) => Ok(v),
        Lookup::NotFound => Ok(Vec::new()),
        Lookup::Failed => Err(ErrorStatus::InternalServerError),
    }
}

/// The store's answer to updating a tree's root: exactly one updated record
/// is success, anything else an internal error.
pub fn root_update_outcome(updated: Option<usize>) -> (res: Result<(), ErrorStatus>)
    ensures
        res == if updated == Some(1usize) {
            Ok::<(), ErrorStatus>(())
        } else {
            Err(ErrorStatus::InternalServerError)
        },
{
    match updated {
        Some(n) => if n == 1 {
            Ok(())
        } else {
            Err(ErrorStatus::InternalServerError)
        },
        None => Err(ErrorStatus::InternalServerError),
    }
}

} // verus!
