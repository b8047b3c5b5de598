//! What can go wrong in the library's decisions, and how it is reported.

use vstd::prelude::*;
use vstd::string::*;

verus! {

/// Why a command could not be carried out.
#[derive(Clone, Copy, Debug, PartialEq, Eq, Structural)]
pub enum Failure {
    /// No boat is configured: there are no settings, or they name no boat.
    NoBoat,
    /// Settings exist but could not be read or understood.
    UnreadableSettings,
    /// The date and time do not make a timestamp in the zone asked for.
    NoTimestamp,
}

/// The text a user is shown for each failure.
pub open spec fn failure_text(failure: Failure) -> Seq<char> {
    match failure {
        Failure::NoBoat => "No boat is set!, use set -b to set a boat"@,
        Failure::UnreadableSettings => "the settings could not be read"@,
        Failure::NoTimestamp => "the date and time make no timestamp in this time zone"@,
    }
}

/// The line printed when a command fails: the command, then the reason.
pub open spec fn report_text(command: Seq<char>, message: Seq<char>) -> Seq<char> {
    "Failed to "@ + command + ": "@ + message
}

impl Failure {
    /// The message for this failure.
    pub fn message(&self) -> (out: &'static str)
        ensures
            out@ == failure_text(*self),
    {
        match self {
            Failure::NoBoat => "No boat is set!, use set -b to set a boat",
            Failure::UnreadableSettings => "the settings could not be read",
            Failure::NoTimestamp => "the date and time make no timestamp in this time zone",
        }
    }
}

/// Composes the line that tells the user which command failed and why.
pub fn failure_report(command: &str, message: &str) -> (out: String)
    ensures
        out@ == report_text(command@, message@),
{
    let mut out = String::from_str("Failed to ");
    out.append(command);
    out.append(": ");
    out.append(message);
    out
}

} // verus!
