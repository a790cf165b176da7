//! The command record: a name, the shell command line it stands for and an
//! optional description.

use vstd::prelude::*;

verus! {

/// The mathematical value of a [`Command`].
pub struct CommandView {
    pub name: Seq<char>,
    pub cmd: Seq<char>,
    pub desc: Option<Seq<char>>,
}

/// A stored shortcut: `name` runs `cmd`; `desc` says what it is for.
#[derive(Debug, PartialEq, Eq)]
pub struct Command {
    pub name: String,
    pub cmd: String,
    pub desc: Option<String>,
}

/// The text of an optional string, if there is one.
pub open spec fn text_of(o: Option<String>) -> Option<Seq<char>> {
    match o {
        Some(s) => Some(s@),
        None => None,
    }
}

impl View for Command {
    type V = CommandView;

    open spec fn view(&self) -> CommandView {
        CommandView { name: self.name@, cmd: self.cmd@, desc: text_of(self.desc) }
    }
}

/// Copies an optional string.
pub fn copy_text(o: &Option<String>) -> (out: Option<String>)
    ensures
        text_of(out) == text_of(*o),
{
    match o {
        Some(s) => Some(s.clone()),
        None => None,
    }
}

impl Clone for Command {
    fn clone(&self) -> (out: Self)
        ensures
            out@ == self@,
    {
        Command { name: self.name.clone(), cmd: self.cmd.clone(), desc: copy_text(&self.desc) }
    }
}

impl Command {
    /// Builds a record from its three fields.
    pub fn new(name: String, cmd: String, desc: Option<String>) -> (record: Command)
        ensures
            record.name == name,
            record.cmd == cmd,
            record.desc == desc,
            record@ == (CommandView { name: name@, cmd: cmd@, desc: text_of(desc) }),
    {
        Command { name, cmd, desc }
    }
}

} // verus!
