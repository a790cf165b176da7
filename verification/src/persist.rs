//! The backing file as the store sees it: what the attempt to read it
//! yielded, the store that an invocation starts from, and the diagnostics of
//! the failures that end the process.

use vstd::prelude::*;
use vstd::string::*;
use crate::record::{Command, CommandView};
use crate::store::{records_of, Store};

verus! {

/// What reading the backing file yielded.
#[derive(Debug, PartialEq, Eq)]
pub enum Loaded {
    /// There is no backing file.
    Absent,
    /// The file is there and could not be read; the reason in words.
    Unreadable(String),
    /// The file was read and is no serialized sequence of records; the
    /// reason in words.
    Malformed(String),
    /// The records of the file, in its order.
    Records(Vec<Command>),
}

/// A failure that ends the process with a diagnostic and a non-zero status.
#[derive(Debug, PartialEq, Eq)]
pub enum Failure {
    /// The backing file could not be read.
    Read(String),
    /// The backing file could not be parsed.
    Parse(String),
    /// The records could not be serialized.
    Serialize(String),
}

/// The name of the backing file.
pub open spec fn backing_file_name() -> Seq<char> {
    ".projecto.json"@
}

/// The records that an invocation starts from, or the reason why it cannot
/// start: no file is an empty store, not an error.
pub open spec fn opened(loaded: Loaded) -> Result<Seq<CommandView>, Failure> {
    match loaded {
        Loaded::Absent => Ok(Seq::empty()),
        Loaded::Unreadable(reason) => Err(Failure::Read(reason)),
        Loaded::Malformed(reason) => Err(Failure::Parse(reason)),
        Loaded::Records(commands) => Ok(records_of(commands@)),
    }
}

/// The line printed for a failure.
pub open spec fn diagnostic_text(failure: Failure) -> Seq<char> {
    match failure {
        Failure::Read(reason) => "Error reading "@ + backing_file_name() + ": "@ + reason@,
        Failure::Parse(reason) => "Error parsing "@ + backing_file_name() + ": "@ + reason@,
        Failure::Serialize(reason) => "Error serializing commands: "@ + reason@,
    }
}

/// The name of the backing file, in the current directory.
pub fn backing_file() -> (name: String)
    ensures
        name@ == backing_file_name(),
{
    String::from_str(".projecto.json")
}

/// The store of an invocation: empty where there is no file, the file's
/// records where it was read, and a failure where it could not be read or
/// parsed.
pub fn open(loaded: Loaded) -> (start: Result<Store, Failure>)
    ensures
        match start {
            Ok(store) => opened(loaded) == Ok::<Seq<CommandView>, Failure>(store@),
            Err(failure) => opened(loaded) == Err::<Seq<CommandView>, Failure>(failure),
        },
{
    match loaded {
        Loaded::Absent => Ok(Store::new()),
        Loaded::Unreadable(reason) => Err(Failure::Read(reason)),
        Loaded::Malformed(reason) => Err(Failure::Parse(reason)),
        Loaded::Records(commands) => Ok(Store { commands }),
    }
}

/// The line to print before the process ends on a failure.
pub fn diagnostic(failure: &Failure) -> (text: String)
    ensures
        text@ == diagnostic_text(*failure),
{
    match failure {
        Failure::Read(reason) => {
            let mut text = String::from_str("Error reading ");
            text.append(".projecto.json");
            text.append(": ");
            text.append(reason.as_str());
            text
        },
        Failure::Parse(reason) => {
            let mut text = String::from_str("Error parsing ");
            text.append(".projecto.json");
            text.append(": ");
            text.append(reason.as_str());
            text
        },
        Failure::Serialize(reason) => {
            let mut text = String::from_str("Error serializing commands: ");
            text.append(reason.as_str());
            text
        },
    }
}

} // verus!
