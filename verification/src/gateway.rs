//! The protocol surface of the gateway: the exact mapping from command
//! submission outcomes to the status codes the service answers with. The
//! network marshalling around it is not part of the library; it hands
//! these functions plain values and sends the codes back.

use vstd::prelude::*;
use crate::queue::EnqueueResult;

verus! {

/// An assemble request: a program listing and the flag selecting the
/// original notation over the modern one.
#[derive(Clone, Debug)]
pub struct Assembly {
    /// The program listing to assemble.
    pub listing: String,
    /// Whether the listing is written in the original notation.
    pub og_notation: bool,
}

/// The status answered to a run request. An accepted submission is judged
/// by the acknowledgment the actor wrote: `Some(true)` means the run was
/// started, `Some(false)` that another run was active, `None` that the
/// actor went away before answering.
pub fn run_status(enq: EnqueueResult, ack: Option<bool>) -> (c: u16)
    ensures
        enq == EnqueueResult::Saturated ==> c == 503,
        enq == EnqueueResult::ActorGone ==> c == 500,
        enq == EnqueueResult::Accepted && ack == Some(true) ==> c == 200,
        enq == EnqueueResult::Accepted && ack == Some(false) ==> c == 423,
        enq == EnqueueResult::Accepted && ack is None ==> c == 500,
{
    match enq {
        EnqueueResult::Saturated => 503,
        EnqueueResult::ActorGone => 500,
        EnqueueResult::Accepted => match ack {
            Some(true) => 200,
            Some(false) => 423,
            None => 500,
        },
    }
}

/// The status answered to a cancel request: accepted means enqueued; any
/// rejection is the service's own failure, never the caller's.
pub fn cancel_status(enq: EnqueueResult) -> (c: u16)
    ensures
        enq == EnqueueResult::Accepted ==> c == 200,
        enq != EnqueueResult::Accepted ==> c == 500,
{
    match enq {
        EnqueueResult::Accepted => 200,
        _ => 500,
    }
}

/// The status answered to an assemble request: a listing the assembler
/// accepts yields the snapshot, a rejected one yields the diagnostic.
pub fn assemble_status(accepted: bool) -> (c: u16)
    ensures
        accepted ==> c == 200,
        !accepted ==> c == 400,
{
    if accepted { 200 } else { 400 }
}

} // verus!
