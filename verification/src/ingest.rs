//! Ingestion: what was fetched is saved article by article, and the first
//! save that fails ends the run.

use crate::error::DomainError;
use vstd::prelude::*;

verus! {

/// What ingestion does next.
#[derive(Debug)]
pub enum IngestStep {
    /// Save the fetched article at this position.
    Save(usize),
    /// Stop, with the number of articles fetched or with the failure.
    Done(Result<usize, DomainError>),
}

/// The step that follows when, of `fetched` articles, the first `saved` have
/// been handed to the store and the last save ended as `last` says (`Ok`
/// before the first save).
///
/// A failed save ends the run with its failure; what was saved before it
/// stays saved. Otherwise the next article is saved, and when none is left
/// the run ends with the number of articles fetched.
pub fn next_step(fetched: usize, saved: usize, last: Result<(), DomainError>) -> (step: IngestStep)
    ensures
        match last {
            Err(e) => step == IngestStep::Done(Err(e)),
            Ok(_) => if saved < fetched {
                step == IngestStep::Save(saved)
            } else {
                step == IngestStep::Done(Ok(fetched))
            },
        },
{
    match last {
        Err(e) => IngestStep::Done(Err(e)),
        Ok(_) => if saved < fetched {
            IngestStep::Save(saved)
        } else {
            IngestStep::Done(Ok(fetched))
        },
    }
}

} // verus!
