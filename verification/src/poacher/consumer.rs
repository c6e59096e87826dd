//! The consumer absorbs the poachers' messages; this is what it does with
//! each one.
use vstd::prelude::*;

use super::meetup::MeetupResult;
use super::{PoacherError, PoacherMessage, PoacherResult, PoacherWarning};

verus! {

/// What the consumer does with one message.
#[derive(Debug)]
pub enum ConsumerStep {
    /// Report the error and go on listening.
    ReportError(PoacherError),
    /// Report the warning and go on listening.
    ReportWarning(PoacherWarning),
    /// Stop listening: the poacher is done.
    Stop,
    /// Store what was found on meetup.com and go on listening.
    Consume(MeetupResult),
    /// Fail with "Not Implemented": local results are not consumed here.
    Unsupported,
}

/// The step that the consumer takes for `msg`.
pub fn next_step(msg: PoacherMessage) -> (step: ConsumerStep)
    ensures
        match msg {
            PoacherMessage::Error(e) => step == ConsumerStep::ReportError(e),
            PoacherMessage::Warning(w) => step == ConsumerStep::ReportWarning(w),
            PoacherMessage::End => step == ConsumerStep::Stop,
            PoacherMessage::ResultItem(PoacherResult::Meetup(r)) => step == ConsumerStep::Consume(r),
            PoacherMessage::ResultItem(PoacherResult::Local(_)) => step == ConsumerStep::Unsupported,
        },
{
    match msg {
        PoacherMessage::Error(err) => ConsumerStep::ReportError(err),
        PoacherMessage::Warning(w) => ConsumerStep::ReportWarning(w),
        PoacherMessage::End => ConsumerStep::Stop,
        PoacherMessage::ResultItem(item) => match item {
            PoacherResult::Meetup(result) => ConsumerStep::Consume(result),
            PoacherResult::Local(_) => ConsumerStep::Unsupported,
        },
    }
}

} // verus!
