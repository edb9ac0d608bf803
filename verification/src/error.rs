//! What can go wrong while the backend is located, started or stopped.

use vstd::prelude::*;
use crate::text::{join_list, joined_list, texts};

verus! {

/// A failure that a caller of the supervisor can react to.
#[derive(Clone, Debug, PartialEq, Eq)]
pub enum SupervisorError {
    /// Nothing was found at any of the places searched, listed in the order
    /// in which they were tried.
    DiscoveryFailed { searched: Vec<String> },
    /// The operating system could not create the child process; `reason` is
    /// its own account of why.
    SpawnFailed { reason: String },
    /// The child could not be terminated; `reason` is the operating
    /// system's account of why.
    TerminationFailed { reason: String },
}

/// A failure as plain text values.
pub enum Failure {
    DiscoveryFailed { searched: Seq<Seq<char>> },
    SpawnFailed { reason: Seq<char> },
    TerminationFailed { reason: Seq<char> },
}

impl View for SupervisorError {
    type V = Failure;

    open spec fn view(&self) -> Failure {
        match *self {
            SupervisorError::DiscoveryFailed { searched } => Failure::DiscoveryFailed {
                searched: texts(searched@),
            },
            SupervisorError::SpawnFailed { reason } => Failure::SpawnFailed { reason: reason@ },
            SupervisorError::TerminationFailed { reason } => Failure::TerminationFailed {
                reason: reason@,
            },
        }
    }
}

impl Failure {
    /// The sentence shown to the operator for this failure.
    pub open spec fn message(self) -> Seq<char> {
        match self {
            Failure::DiscoveryFailed { searched } => "Backend server.js not found, searched: "@
                + joined_list(searched, ", "@),
            Failure::SpawnFailed { reason } => "Failed to start backend server: "@ + reason,
            Failure::TerminationFailed { reason } => "Failed to stop backend server: "@ + reason,
        }
    }
}

impl SupervisorError {
    /// The sentence shown to the operator for this failure. A discovery
    /// failure names every place that was searched, in order; the other two
    /// carry the operating system's text unchanged.
    pub fn message(&self) -> (res: String)
        ensures
            res@ == self@.message(),
    {
        match self {
            SupervisorError::DiscoveryFailed { searched } => {
                let mut res = String::from_str("Backend server.js not found, searched: ");
                let list = join_list(searched, ", ");
                res.append(list.as_str());
                res
            },
            SupervisorError::SpawnFailed { reason } => {
                let mut res = String::from_str("Failed to start backend server: ");
                res.append(reason.as_str());
                res
            },
            SupervisorError::TerminationFailed { reason } => {
                let mut res = String::from_str("Failed to stop backend server: ");
                res.append(reason.as_str());
                res
            },
        }
    }
}

} // verus!
