//! What holds of every run of the supervisor.
//!
//! A run is a sequence of calls: starts, stops, and the stop that the
//! host's close signal forces. Each call is written down together with what
//! the machine answered while it lasted. The ledger of the supervisor keeps
//! count of the children that were created and of those that were handed
//! out to be terminated; the difference is the number of children that the
//! supervisor answers for. The steps of a call change the ledger as the
//! contracts of the supervisor's functions say; here they are put together
//! into whole calls and whole runs.

use vstd::prelude::*;
use crate::error::Failure;
use crate::locator::{discovered, lemma_first_present};
use crate::probe::{classified, HealthStatus, ProbeReply};
use crate::supervisor::{start_decision, Ledger, StartDecision};

verus! {

/// One call, with what the machine answered while it lasted. An answer
/// that the call never asked for plays no part.
pub enum Call {
    /// A start.
    Start {
        /// Whether the entry script was there.
        entry_script_present: bool,
        /// What the probe before the start said.
        probe: HealthStatus,
        /// Whether the child held before could be terminated.
        killed: bool,
        /// Whether the spawn created a child.
        created: bool,
    },
    /// A stop; `killed` says whether the child could be terminated.
    Stop { killed: bool },
    /// The stop that the close signal forces.
    Exit { killed: bool },
}

/// The ledger after one call.
///
/// A start that is refused or that reuses a backend leaves it as it is. A
/// start that replaces a child hands that child out and, where it could be
/// terminated, spawns. A start of an idle supervisor spawns. A stop, forced
/// or not, hands out the child held, if any.
pub open spec fn after(ledger: Ledger, call: Call) -> Ledger {
    match call {
        Call::Start { entry_script_present, probe, killed, created } => match start_decision(
            ledger.holding,
            entry_script_present,
            probe,
        ) {
            StartDecision::Refuse => ledger,
            StartDecision::Reuse => ledger,
            StartDecision::Replace => if killed {
                ledger.after_release().after_spawn(created)
            } else {
                ledger.after_release()
            },
            StartDecision::Launch => ledger.after_spawn(created),
        },
        Call::Stop { killed } => ledger.after_release(),
        Call::Exit { killed } => ledger.after_release(),
    }
}

/// The ledger after all of `calls`, one after the other.
pub open spec fn after_all(ledger: Ledger, calls: Seq<Call>) -> Ledger
    decreases calls.len(),
{
    if calls.len() == 0 {
        ledger
    } else {
        after(after_all(ledger, calls.drop_last()), calls.last())
    }
}

/// A call leaves a balanced ledger balanced.
pub proof fn law_call_keeps_balance(ledger: Ledger, call: Call)
    requires
        ledger.balanced(),
    ensures
        after(ledger, call).balanced(),
{
}

/// Whatever calls are made, in whatever order and however the machine
/// answers, the supervisor never answers for more than one child: it holds
/// at most one handle, and a second child is created only after the first
/// was handed out to be terminated.
pub proof fn law_single_child(calls: Seq<Call>)
    ensures
        after_all(Ledger::fresh(), calls).balanced(),
        0 <= after_all(Ledger::fresh(), calls).in_charge() <= 1,
    decreases calls.len(),
{
    if calls.len() > 0 {
        law_single_child(calls.drop_last());
        law_call_keeps_balance(after_all(Ledger::fresh(), calls.drop_last()), calls.last());
    }
}

/// A stop of an idle supervisor changes nothing.
pub proof fn law_stop_when_idle(ledger: Ledger, killed: bool)
    requires
        !ledger.holding,
    ensures
        after(ledger, Call::Stop { killed }) == ledger,
{
}

/// After a stop nothing is held, and a second stop changes nothing:
/// stopping twice is the same as stopping once.
pub proof fn law_stop_twice(ledger: Ledger, first: bool, second: bool)
    ensures
        !after(ledger, Call::Stop { killed: first }).holding,
        after(after(ledger, Call::Stop { killed: first }), Call::Stop { killed: second })
            == after(ledger, Call::Stop { killed: first }),
{
}

/// A start that finds the entry script and a backend that answers the
/// probe with HTTP 200 creates no child and changes nothing, whether a
/// child is held or not.
pub proof fn law_reuse(ledger: Ledger, killed: bool, created: bool)
    ensures
        classified(ProbeReply::Status(200)) == HealthStatus::Responding,
        start_decision(ledger.holding, true, HealthStatus::Responding) == StartDecision::Reuse,
        after(
            ledger,
            Call::Start {
                entry_script_present: true,
                probe: classified(ProbeReply::Status(200)),
                killed,
                created,
            },
        ) == ledger,
{
}

/// After the forced stop nothing is held, whatever was held before and
/// whether the termination succeeded or failed; a balanced ledger then
/// answers for no child.
pub proof fn law_exit_idles(ledger: Ledger, killed: bool)
    ensures
        !after(ledger, Call::Exit { killed }).holding,
        ledger.balanced() ==> after(ledger, Call::Exit { killed }).settled_empty(),
{
}

/// A search returns the first candidate that is present: it is one of the
/// candidates, it is present, and no candidate before it is. Where no
/// candidate is present the search fails, and the failure lists every
/// candidate, in the order in which they were tried.
pub proof fn law_discovery(candidates: Seq<Seq<char>>, present: Seq<bool>)
    ensures
        match discovered(candidates, present) {
            Ok(path) => exists|i: int|
                {
                    &&& 0 <= i < candidates.len()
                    &&& i < present.len()
                    &&& path == #[trigger] candidates[i]
                    &&& present[i]
                    &&& forall|j: int| 0 <= j < i ==> !present[j]
                },
            Err(failure) => {
                &&& failure == (Failure::DiscoveryFailed { searched: candidates })
                &&& forall|j: int| 0 <= j < candidates.len() && j < present.len() ==> !present[j]
            },
        },
{
    lemma_first_present(present, candidates.len());
}

} // verus!
