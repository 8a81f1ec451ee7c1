use vstd::prelude::*;

verus! {

/// What finalizing a transaction does next.
#[derive(Clone, Copy, Debug, PartialEq, Eq, Structural)]
pub enum FinishAction {
    /// Send the commit request.
    Commit,
    /// Send a rollback request, then hand the original failure back.
    Rollback,
    /// Hand the original failure back and send nothing.
    Propagate,
    /// The transaction was already finalized: send nothing, hand the input back.
    Reject,
}

/// The finalization table. `succeeded` tells whether the caller's work succeeded;
/// `origin` is the server status code that a failure carries, if any.
pub open spec fn finish_action_spec(succeeded: bool, origin: Option<tonic::Code>) -> FinishAction {
    if succeeded {
        FinishAction::Commit
    } else {
        match origin {
            None => FinishAction::Rollback,
            Some(tonic::Code::Aborted) => FinishAction::Propagate,
            Some(tonic::Code::NotFound) => FinishAction::Propagate,
            Some(_) => FinishAction::Rollback,
        }
    }
}

/// The finalization table, on a transaction that is still open or already finalized.
pub open spec fn finish_step_spec(
    finalized: bool,
    succeeded: bool,
    origin: Option<tonic::Code>,
) -> FinishAction {
    if finalized {
        FinishAction::Reject
    } else {
        finish_action_spec(succeeded, origin)
    }
}

/// Decides how to finalize an open transaction: commit on success; on failure,
/// leave it alone when the server reported `ABORTED` or `NOT_FOUND`, and roll it
/// back otherwise, also when the failure carries no server status.
pub fn finish_action(succeeded: bool, origin: Option<tonic::Code>) -> (r: FinishAction)
    ensures
        r == finish_action_spec(succeeded, origin),
{
    if succeeded {
        FinishAction::Commit
    } else {
        match origin {
            None => FinishAction::Rollback,
            Some(tonic::Code::Aborted) => FinishAction::Propagate,
            Some(tonic::Code::NotFound) => FinishAction::Propagate,
            Some(_) => FinishAction::Rollback,
        }
    }
}

/// A failure that may carry a server status, and can be made from one.
pub trait TransactionError: Sized {
    /// The server status code this failure carries, if any.
    fn status_code(&self) -> Option<tonic::Code>;

    /// The failure that stands for a status the server returned.
    fn from_status(status: tonic::Status) -> Self;
}

impl TransactionError for tonic::Status {
    fn status_code(&self) -> Option<tonic::Code> {
        Some(self.code())
    }

    fn from_status(status: tonic::Status) -> Self {
        status
    }
}

} // verus!
