//! The front end's decisions: what one request does to the store, what it
//! prints, and what it asks of the surroundings (writing the backing file,
//! running a shell).

use vstd::prelude::*;
use vstd::string::*;
use vstd::utf8::{decode_utf8, valid_utf8};
use crate::present::{render, table_rows, table_text};
use crate::record::{text_of, CommandView};
use crate::store::{position, upsert, without, Added, Store};

verus! {

/// One invocation of the front end.
#[derive(Debug, PartialEq, Eq)]
pub enum Request {
    /// Create the backing file, or rewrite it as it is.
    Init,
    /// Add a record, or revise the one of that name.
    Add { name: String, cmd: String, desc: Option<String> },
    /// Run the stored command of that name.
    Run { name: String },
    /// Show all records.
    List,
    /// Drop the records of that name.
    Remove { name: String },
    /// No subcommand was given.
    Nothing,
}

/// One step that the caller performs, in the order given.
#[derive(Debug, PartialEq, Eq)]
pub enum Effect {
    /// Print the text and a line break on standard output.
    Print(String),
    /// Write the store to the backing file and print `init_report` of the
    /// outcome.
    Save,
    /// Write the store to the backing file; a failure ends the process.
    SaveOrAbort,
    /// Run `program flag script`, wait for it, and print `captured_text` of
    /// its standard output. A failure to start it ends the process.
    Execute { program: String, flag: String, script: String },
}

/// The mathematical value of an [`Effect`].
pub enum EffectView {
    Print(Seq<char>),
    Save,
    SaveOrAbort,
    Execute { program: Seq<char>, flag: Seq<char>, script: Seq<char> },
}

impl View for Effect {
    type V = EffectView;

    open spec fn view(&self) -> EffectView {
        match *self {
            Effect::Print(text) => EffectView::Print(text@),
            Effect::Save => EffectView::Save,
            Effect::SaveOrAbort => EffectView::SaveOrAbort,
            Effect::Execute { program, flag, script } => EffectView::Execute {
                program: program@,
                flag: flag@,
                script: script@,
            },
        }
    }
}

/// The values of a run of effects, in order.
pub open spec fn effects_of(effects: Seq<Effect>) -> Seq<EffectView> {
    Seq::new(effects.len(), |i: int| effects[i]@)
}

/// How `{:?}` writes an optional string.
pub uninterp spec fn debug_text(desc: Option<Seq<char>>) -> Seq<char>;

/// What the bytes of a child's output read as, with a replacement character
/// for each malformed sequence.
pub uninterp spec fn lossy_text(bytes: Seq<u8>) -> Seq<char>;

/// The interpreter that runs a stored command line.
pub open spec fn shell_program(windows: bool) -> Seq<char> {
    if windows {
        "cmd"@
    } else {
        "sh"@
    }
}

/// The flag after which the interpreter takes the command line as one
/// argument.
pub open spec fn shell_flag(windows: bool) -> Seq<char> {
    if windows {
        "/C"@
    } else {
        "-c"@
    }
}

/// The records after the request. Only `Add` and `Remove` change them.
pub open spec fn store_after(records: Seq<CommandView>, request: Request) -> Seq<CommandView> {
    match request {
        Request::Add { name, cmd, desc } => upsert(records, name@, cmd@, text_of(desc)),
        Request::Remove { name } => without(records, name@),
        _ => records,
    }
}

/// The line that announces an update of `name` from one command line to
/// another.
pub open spec fn updating_text(name: Seq<char>, previous: Seq<char>, cmd: Seq<char>) -> Seq<char> {
    "Updating command: "@ + name + ", from '"@ + previous + "' to '"@ + cmd + "'"@
}

/// The line that announces a new record; `shown` is the description as
/// `{:?}` writes it.
pub open spec fn adding_text(name: Seq<char>, cmd: Seq<char>, shown: Seq<char>) -> Seq<char> {
    "Adding command: "@ + name + " '"@ + cmd + "' "@ + shown
}

/// The steps that show a listing: a notice where there is no table, else
/// the table.
pub open spec fn listing_plan(table: Option<Seq<char>>) -> Seq<EffectView> {
    let first = EffectView::Print("Listing commands..."@);
    match table {
        None => seq![first, EffectView::Print("No commands found."@)],
        Some(text) => seq![first, EffectView::Print(text)],
    }
}

/// The steps of `Add`.
pub open spec fn add_plan(
    records: Seq<CommandView>,
    name: Seq<char>,
    cmd: Seq<char>,
    desc: Option<Seq<char>>,
) -> Seq<EffectView> {
    match position(records, name) {
        Some(i) => {
            let first = EffectView::Print(updating_text(name, records[i].cmd, cmd));
            match desc {
                Some(d) => seq![
                    first,
                    EffectView::Print("Updating description: "@ + d),
                    EffectView::SaveOrAbort,
                ],
                None => seq![first, EffectView::SaveOrAbort],
            }
        },
        None => seq![
            EffectView::Print(adding_text(name, cmd, debug_text(desc))),
            EffectView::SaveOrAbort,
        ],
    }
}

/// The steps of `Run`.
pub open spec fn run_plan(records: Seq<CommandView>, name: Seq<char>, windows: bool) -> Seq<
    EffectView,
> {
    let first = EffectView::Print("Running command: "@ + name);
    match position(records, name) {
        Some(i) => seq![
            first,
            EffectView::Print("Executing: "@ + records[i].cmd),
            EffectView::Execute {
                program: shell_program(windows),
                flag: shell_flag(windows),
                script: records[i].cmd,
            },
        ],
        None => seq![first, EffectView::Print("Command not found."@)],
    }
}

/// The steps of `List`: a notice for an empty store, else the table.
pub open spec fn list_plan(records: Seq<CommandView>) -> Seq<EffectView> {
    if records.len() == 0 {
        listing_plan(None)
    } else {
        listing_plan(Some(table_text(table_rows(records))))
    }
}

/// The steps of a request on a store, in order.
pub open spec fn plan(records: Seq<CommandView>, request: Request, windows: bool) -> Seq<
    EffectView,
> {
    match request {
        Request::Init => seq![EffectView::Save],
        Request::Add { name, cmd, desc } => add_plan(records, name@, cmd@, text_of(desc)),
        Request::Run { name } => run_plan(records, name@, windows),
        Request::List => list_plan(records),
        Request::Remove { name } => seq![EffectView::Print("Removing command: "@ + name@)],
        Request::Nothing => seq![EffectView::Print("No command provided"@)],
    }
}

/// Listing an empty store prints the notice that there are no commands and
/// no table.
pub proof fn empty_store_lists_nothing(records: Seq<CommandView>, windows: bool)
    requires
        records.len() == 0,
    ensures
        plan(records, Request::List, windows) == listing_plan(None),
        plan(records, Request::List, windows) == seq![
            EffectView::Print("Listing commands..."@),
            EffectView::Print("No commands found."@),
        ],
        store_after(records, Request::List) == records,
{
}

/// `Init` leaves the records as they are, so a second `Init` writes the same
/// records as the first and asks for the same steps.
pub proof fn init_is_idempotent(records: Seq<CommandView>, windows: bool)
    ensures
        store_after(records, Request::Init) == records,
        store_after(store_after(records, Request::Init), Request::Init) == store_after(
            records,
            Request::Init,
        ),
        plan(store_after(records, Request::Init), Request::Init, windows) == plan(
            records,
            Request::Init,
            windows,
        ),
        plan(records, Request::Init, windows) == seq![EffectView::Save],
{
}

/// `Remove` changes the records in memory only: its one step prints, and
/// none writes the backing file.
pub proof fn remove_writes_nothing(records: Seq<CommandView>, name: String, windows: bool)
    ensures
        store_after(records, Request::Remove { name }) == without(records, name@),
        plan(records, Request::Remove { name }, windows) == seq![
            EffectView::Print("Removing command: "@ + name@),
        ],
{
}

/// Every request but `Add` and `Remove` leaves the records as they are.
pub proof fn queries_keep_the_store(records: Seq<CommandView>, request: Request)
    requires
        !(request is Add),
        !(request is Remove),
    ensures
        store_after(records, request) == records,
{
}

/// Formats with `{:?}`, that is through `Debug` of `Option<String>`. The
/// contract gives the text the name `debug_text` of the value and claims no
/// more.
#[verifier::external_body]
fn debug_option(desc: &Option<String>) -> (text: String)
    ensures
        text@ == debug_text(text_of(*desc)),
{
    format!("{:?}", desc)
}

/// Calls `String::from_utf8_lossy` and owns the result. The contract gives
/// the text the name `lossy_text` of the bytes, and claims of it what the
/// function documents: well-formed UTF-8 reads as the text it encodes.
#[verifier::external_body]
fn decode_lossy(bytes: &[u8]) -> (text: String)
    ensures
        text@ == lossy_text(bytes@),
        valid_utf8(bytes@) ==> text@ == decode_utf8(bytes@),
{
    String::from_utf8_lossy(bytes).into_owned()
}

/// `head` followed by `tail`.
fn joined(head: &str, tail: &str) -> (text: String)
    ensures
        text@ == head@ + tail@,
{
    let mut text = String::from_str(head);
    text.append(tail);
    text
}

/// The interpreter and its flag for this platform.
pub fn shell(windows: bool) -> (pair: (String, String))
    ensures
        pair.0@ == shell_program(windows),
        pair.1@ == shell_flag(windows),
{
    if windows {
        (String::from_str("cmd"), String::from_str("/C"))
    } else {
        (String::from_str("sh"), String::from_str("-c"))
    }
}

/// What `Init` prints once the file was written (`None`) or could not be
/// (`Some` with the reason).
pub open spec fn init_text(failure: Option<Seq<char>>) -> Seq<char> {
    match failure {
        None => "Initialized successfully."@,
        Some(reason) => "Error initializing: "@ + reason,
    }
}

/// The line that reports how writing the file for `Init` went.
pub fn init_report(failure: &Option<String>) -> (text: String)
    ensures
        text@ == init_text(text_of(*failure)),
{
    match failure {
        None => String::from_str("Initialized successfully."),
        Some(reason) => joined("Error initializing: ", reason.as_str()),
    }
}

/// The text of what a child process wrote to its standard output.
pub fn captured_text(stdout: &[u8]) -> (text: String)
    ensures
        text@ == lossy_text(stdout@),
        valid_utf8(stdout@) ==> text@ == decode_utf8(stdout@),
{
    decode_lossy(stdout)
}

/// The line that announces an update.
pub fn updating_line(name: &str, previous: &str, cmd: &str) -> (text: String)
    ensures
        text@ == updating_text(name@, previous@, cmd@),
{
    let mut text = String::from_str("Updating command: ");
    text.append(name);
    text.append(", from '");
    text.append(previous);
    text.append("' to '");
    text.append(cmd);
    text.append("'");
    text
}

/// The line that announces a new record, given the description as `{:?}`
/// writes it.
pub fn adding_line(name: &str, cmd: &str, shown: &str) -> (text: String)
    ensures
        text@ == adding_text(name@, cmd@, shown@),
{
    let mut text = String::from_str("Adding command: ");
    text.append(name);
    text.append(" '");
    text.append(cmd);
    text.append("' ");
    text.append(shown);
    text
}

/// The steps that show a listing, given the table if there is one.
pub fn listing(table: Option<String>) -> (effects: Vec<Effect>)
    ensures
        effects_of(effects@) == listing_plan(text_of(table)),
{
    let mut effects: Vec<Effect> = Vec::new();
    effects.push(Effect::Print(String::from_str("Listing commands...")));
    match table {
        None => effects.push(Effect::Print(String::from_str("No commands found."))),
        Some(text) => effects.push(Effect::Print(text)),
    }
    assert(effects_of(effects@) =~= listing_plan(text_of(table)));
    effects
}

fn add_steps(store: &mut Store, name: String, cmd: String, desc: Option<String>) -> (effects: Vec<
    Effect,
>)
    ensures
        final(store)@ == upsert(old(store)@, name@, cmd@, text_of(desc)),
        effects_of(effects@) == add_plan(old(store)@, name@, cmd@, text_of(desc)),
{
    let mut effects: Vec<Effect> = Vec::new();
    let described = match &desc {
        Some(d) => Some(joined("Updating description: ", d.as_str())),
        None => None,
    };
    let shown = debug_option(&desc);
    let shown_name = name.clone();
    let shown_cmd = cmd.clone();
    match store.add(name, cmd, desc) {
        Added::Updated { index: _, previous } => {
            effects.push(
                Effect::Print(
                    updating_line(shown_name.as_str(), previous.as_str(), shown_cmd.as_str()),
                ),
            );
            match described {
                Some(line) => effects.push(Effect::Print(line)),
                None => {},
            }
        },
        Added::Appended => {
            effects.push(
                Effect::Print(adding_line(shown_name.as_str(), shown_cmd.as_str(), shown.as_str())),
            );
        },
    }
    effects.push(Effect::SaveOrAbort);
    assert(effects_of(effects@) =~= add_plan(old(store)@, name@, cmd@, text_of(desc)));
    effects
}

fn run_steps(store: &Store, name: &str, windows: bool) -> (effects: Vec<Effect>)
    ensures
        effects_of(effects@) == run_plan(store@, name@, windows),
{
    let mut effects: Vec<Effect> = Vec::new();
    effects.push(Effect::Print(joined("Running command: ", name)));
    match store.get(name) {
        Some(record) => {
            let (program, flag) = shell(windows);
            effects.push(Effect::Print(joined("Executing: ", record.cmd.as_str())));
            effects.push(Effect::Execute { program, flag, script: record.cmd.clone() });
        },
        None => {
            effects.push(Effect::Print(String::from_str("Command not found.")));
        },
    }
    assert(effects_of(effects@) =~= run_plan(store@, name@, windows));
    effects
}

fn list_steps(store: &Store) -> (effects: Vec<Effect>)
    ensures
        effects_of(effects@) == list_plan(store@),
{
    if store.is_empty() {
        listing(None)
    } else {
        listing(Some(render(store)))
    }
}

/// Performs one request on the store in memory and returns the steps left
/// to the caller, in order. `Add` revises or appends and asks for the file
/// to be written; `Remove` drops records in memory and asks for no write;
/// the others leave the store as it is.
pub fn dispatch(store: &mut Store, request: Request, windows: bool) -> (effects: Vec<Effect>)
    ensures
        final(store)@ == store_after(old(store)@, request),
        effects_of(effects@) == plan(old(store)@, request, windows),
{
    match request {
        Request::Init => {
            let effects = vec![Effect::Save];
            assert(effects_of(effects@) =~= plan(old(store)@, request, windows));
            effects
        },
        Request::Add { name, cmd, desc } => add_steps(store, name, cmd, desc),
        Request::Run { name } => run_steps(store, name.as_str(), windows),
        Request::List => list_steps(store),
        Request::Remove { name } => {
            let effects = vec![Effect::Print(joined("Removing command: ", name.as_str()))];
            store.remove(name.as_str());
            assert(effects_of(effects@) =~= plan(old(store)@, request, windows));
            effects
        },
        Request::Nothing => {
            let effects = vec![Effect::Print(String::from_str("No command provided"))];
            assert(effects_of(effects@) =~= plan(old(store)@, request, windows));
            effects
        },
    }
}

} // verus!
