//! What happens when the host application closes.
//!
//! The host calls [`on_exit`] once, from the handler of its close signal,
//! whatever state the supervisor is in. This is a stop that nobody asked
//! for and nobody waits for: a termination that fails is not reported, and
//! the supervisor ends up idle all the same.

use vstd::prelude::*;
use crate::supervisor::{PendingStop, StopStep, Supervisor};

verus! {

/// Opens the stop that the close signal forces. A supervisor that holds no
/// child is handed back as it is; otherwise the child is handed out, to be
/// terminated.
pub fn on_exit<H>(supervisor: Supervisor<H>) -> (step: StopStep<H>)
    ensures
        match supervisor.held() {
            None => {
                &&& step matches StopStep::Settled(end)
                &&& end.supervisor == supervisor
                &&& end.answer is Ok
            },
            Some(held) => {
                &&& step matches StopStep::Kill { child, next }
                &&& child == held
                &&& next.ledger() == supervisor.ledger().after_release()
            },
        },
{
    supervisor.begin_stop()
}

/// Closes the forced stop. Whether the child was terminated or not, the
/// supervisor that comes back holds nothing, and nothing is reported.
pub fn conclude<H>(next: PendingStop, killed: Result<(), String>) -> (res: Supervisor<H>)
    ensures
        res.held() is None,
        res.ledger() == next.ledger(),
{
    next.complete(killed).supervisor
}

} // verus!
