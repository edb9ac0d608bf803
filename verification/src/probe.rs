//! The health probe: where it is sent and how its answer is read.
//!
//! The probe itself is a short HTTP GET that the caller performs. What came
//! of it arrives here as plain values and is sorted into one of three
//! classes. A probe that could not reach the backend is a class of its own,
//! never a failure of the caller's request.

use vstd::prelude::*;
use crate::text::{decimal, to_decimal, trim, trimmed};

verus! {

/// What a health probe says of the backend.
#[derive(Clone, Copy, Debug, PartialEq, Eq, Structural)]
pub enum HealthStatus {
    /// The backend answered with HTTP 200.
    Responding,
    /// The backend answered with another status.
    NotResponding,
    /// No answer arrived: connection refused, name not resolved, timeout.
    Unreachable,
}

/// How the transfer ended.
#[derive(Clone, Copy, Debug, PartialEq, Eq, Structural)]
pub enum ProbeReply {
    /// An HTTP answer with this status code arrived.
    Status(u16),
    /// The transfer failed before any answer arrived.
    TransportFailure,
}

/// The class of a probe that ended with `reply`.
pub open spec fn classified(reply: ProbeReply) -> HealthStatus {
    match reply {
        ProbeReply::Status(code) => if code == 200 {
            HealthStatus::Responding
        } else {
            HealthStatus::NotResponding
        },
        ProbeReply::TransportFailure => HealthStatus::Unreachable,
    }
}

/// Sorts the end of a probe into its class.
pub fn classify(reply: ProbeReply) -> (res: HealthStatus)
    ensures
        res == classified(reply),
{
    match reply {
        ProbeReply::Status(code) => if code == 200 {
            HealthStatus::Responding
        } else {
            HealthStatus::NotResponding
        },
        ProbeReply::TransportFailure => HealthStatus::Unreachable,
    }
}

impl HealthStatus {
    /// The word under which the class is reported.
    pub open spec fn label_text(self) -> Seq<char> {
        match self {
            HealthStatus::Responding => "running"@,
            HealthStatus::NotResponding => "not_responding"@,
            HealthStatus::Unreachable => "unreachable"@,
        }
    }

    /// The word under which the class is reported.
    pub fn label(self) -> (res: &'static str)
        ensures
            res@ == self.label_text(),
    {
        match self {
            HealthStatus::Responding => "running",
            HealthStatus::NotResponding => "not_responding",
            HealthStatus::Unreachable => "unreachable",
        }
    }

    /// What is said of a child that was just spawned, given the probe taken
    /// after the spawn.
    pub open spec fn readiness_text(self) -> Seq<char> {
        match self {
            HealthStatus::Responding => "Backend server is responding correctly"@,
            HealthStatus::NotResponding => "Backend server started but not responding properly"@,
            HealthStatus::Unreachable => "Backend server started but could not be reached"@,
        }
    }

    /// What is said of a child that was just spawned, given the probe taken
    /// after the spawn. The probe only words the message: the child stays,
    /// and the start has succeeded, whatever it says.
    pub fn readiness_note(self) -> (res: &'static str)
        ensures
            res@ == self.readiness_text(),
    {
        match self {
            HealthStatus::Responding => "Backend server is responding correctly",
            HealthStatus::NotResponding => "Backend server started but not responding properly",
            HealthStatus::Unreachable => "Backend server started but could not be reached",
        }
    }
}

/// The value of the decimal digit `c`, if it is one.
pub open spec fn digit_of(c: char) -> Option<nat> {
    let code = c as u32;
    if 0x30 <= code <= 0x39 {
        Some((code - 0x30) as nat)
    } else {
        None
    }
}

/// The number that `text` spells once white space round it is taken off,
/// if what is left is exactly three decimal digits.
pub open spec fn status_code_of(text: Seq<char>) -> Option<nat> {
    let t = trimmed(text);
    if t.len() == 3 && digit_of(t[0]) is Some && digit_of(t[1]) is Some && digit_of(t[2])
        is Some {
        Some(100 * digit_of(t[0])->0 + 10 * digit_of(t[1])->0 + digit_of(t[2])->0)
    } else {
        None
    }
}

/// How a transfer ended that reported `text` as its status code: with that
/// status where `text` spells a code other than zero, and without an answer
/// otherwise.
pub open spec fn reply_of(text: Seq<char>) -> ProbeReply {
    match status_code_of(text) {
        Some(code) => if code == 0 {
            ProbeReply::TransportFailure
        } else {
            ProbeReply::Status(code as u16)
        },
        None => ProbeReply::TransportFailure,
    }
}

fn digit(c: char) -> (res: Option<u16>)
    ensures
        match res {
            Some(d) => digit_of(c) == Some(d as nat) && d <= 9,
            None => digit_of(c) is None,
        },
{
    let code = c as u32;
    if 0x30 <= code && code <= 0x39 {
        Some((code - 0x30) as u16)
    } else {
        None
    }
}

/// Reads the three-digit status code that a transfer tool printed. A tool
/// that received no answer prints `000`; that, and any text that is not a
/// three-digit code, counts as a failed transfer.
pub fn reply_from_code(text: &str) -> (res: ProbeReply)
    ensures
        res == reply_of(text@),
{
    let t = trim(text);
    let t = t.as_str();
    if t.unicode_len() != 3 {
        return ProbeReply::TransportFailure;
    }
    match (digit(t.get_char(0)), digit(t.get_char(1)), digit(t.get_char(2))) {
        (Some(a), Some(b), Some(c)) => {
            let code: u16 = 100 * a + 10 * b + c;
            if code == 0 {
                ProbeReply::TransportFailure
            } else {
                ProbeReply::Status(code)
            }
        },
        _ => ProbeReply::TransportFailure,
    }
}

/// The port on which the backend listens unless told otherwise.
pub const STANDARD_PORT: u16 = 3001;

/// The address of the backend on the loopback interface at `port`.
pub open spec fn base_url_of(port: u16) -> Seq<char> {
    "http://localhost:"@ + decimal(port as nat)
}

/// The address that the health probe asks for.
pub open spec fn health_url_of(port: u16) -> Seq<char> {
    base_url_of(port) + "/api/test"@
}

/// The address of the backend on the loopback interface at `port`.
pub fn base_url(port: u16) -> (res: String)
    ensures
        res@ == base_url_of(port),
{
    let mut res = String::from_str("http://localhost:");
    let number = to_decimal(port as u64);
    res.append(number.as_str());
    res
}

/// The address that the health probe asks for.
pub fn health_url(port: u16) -> (res: String)
    ensures
        res@ == health_url_of(port),
{
    let mut res = base_url(port);
    res.append("/api/test");
    res
}

} // verus!
