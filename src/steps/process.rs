use vstd::prelude::*;
use crate::plan::{Failure, FailureModel};

verus! {

/// The outcome of a command that ran to its end, from its exit code (`None` where a
/// signal ended it): success only on code zero.
pub fn exit_outcome(code: Option<i32>) -> (r: Result<(), Failure>)
    ensures
        r.is_ok() <==> code == Some(0i32),
        r.is_err() ==> r.unwrap_err()@ == FailureModel::Exit(code),
{
    match code {
        Some(0) => Ok(()),
        _ => Err(Failure::Exit(code)),
    }
}

} // verus!
