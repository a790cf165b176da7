//! The store: an ordered sequence of command records, looked up by exact
//! name.

use vstd::prelude::*;
use vstd::string::*;
use crate::record::{copy_text, text_of, Command, CommandView};

verus! {

/// The ordered records of one project.
#[derive(Debug, PartialEq, Eq)]
pub struct Store {
    pub commands: Vec<Command>,
}

/// The values of a run of records, in order.
pub open spec fn records_of(commands: Seq<Command>) -> Seq<CommandView> {
    Seq::new(commands.len(), |i: int| commands[i]@)
}

impl View for Store {
    type V = Seq<CommandView>;

    open spec fn view(&self) -> Seq<CommandView> {
        records_of(self.commands@)
    }
}

/// The names of the records, in order.
pub open spec fn names(records: Seq<CommandView>) -> Seq<Seq<char>> {
    Seq::new(records.len(), |i: int| records[i].name)
}

/// The place of the first record called `name`, compared character by
/// character with no folding or trimming.
pub open spec fn position(records: Seq<CommandView>, name: Seq<char>) -> Option<int> {
    names(records).index_of_first(name)
}

/// What an update makes of a record: the command line is replaced, the
/// description only where a new one is supplied.
pub open spec fn revised(record: CommandView, cmd: Seq<char>, desc: Option<Seq<char>>)
    -> CommandView {
    CommandView {
        name: record.name,
        cmd,
        desc: if desc is Some {
            desc
        } else {
            record.desc
        },
    }
}

/// The records after adding `name`: the first record of that name is revised
/// where it stands, or a new record is appended.
pub open spec fn upsert(
    records: Seq<CommandView>,
    name: Seq<char>,
    cmd: Seq<char>,
    desc: Option<Seq<char>>,
) -> Seq<CommandView> {
    match position(records, name) {
        Some(i) => records.update(i, revised(records[i], cmd, desc)),
        None => records.push(CommandView { name, cmd, desc }),
    }
}

/// The records that are not called `name`, in their order.
pub open spec fn without(records: Seq<CommandView>, name: Seq<char>) -> Seq<CommandView> {
    records.filter(other_than(name))
}

/// The test that `without` keeps records by: the name differs.
pub open spec fn other_than(name: Seq<char>) -> spec_fn(CommandView) -> bool {
    |r: CommandView| r.name != name
}

/// What `position` returns is the least index that holds the name, and
/// `None` exactly when no record holds it.
pub proof fn position_is_first_exact_match(records: Seq<CommandView>, name: Seq<char>)
    ensures
        match position(records, name) {
            Some(i) => {
                &&& 0 <= i < records.len()
                &&& records[i].name == name
                &&& forall|j: int| 0 <= j < i ==> records[j].name != name
            },
            None => forall|j: int| 0 <= j < records.len() ==> records[j].name != name,
        },
{
    let ns = names(records);
    ns.index_of_first_ensures(name);
    match ns.index_of_first(name) {
        Some(i) => {
            assert forall|j: int| 0 <= j < i implies records[j].name != name by {
                assert(ns[j] != name);
            }
        },
        None => {
            assert forall|j: int| 0 <= j < records.len() implies records[j].name != name by {
                assert(ns[j] == records[j].name);
                assert(ns.contains(ns[j]));
            }
        },
    }
}

/// An index that holds the name with none before it is the position.
pub proof fn first_match_is_position(records: Seq<CommandView>, name: Seq<char>, i: int)
    requires
        0 <= i < records.len(),
        records[i].name == name,
        forall|j: int| 0 <= j < i ==> records[j].name != name,
    ensures
        position(records, name) == Some(i),
{
    position_is_first_exact_match(records, name);
    let ns = names(records);
    assert(ns[i] == name);
    assert(ns.contains(name));
    ns.index_of_first_ensures(name);
}

/// A name that no record holds has no position.
pub proof fn no_match_is_no_position(records: Seq<CommandView>, name: Seq<char>)
    requires
        forall|j: int| 0 <= j < records.len() ==> records[j].name != name,
    ensures
        position(records, name) is None,
{
    position_is_first_exact_match(records, name);
}

/// No two records share a name.
pub open spec fn distinct_names(records: Seq<CommandView>) -> bool {
    forall|i: int, j: int| 0 <= i < j < records.len() ==> records[i].name != records[j].name
}

/// Adding a name that no record holds appends one record with the given
/// fields; the records that were there stay as they were, in their order.
pub proof fn add_of_new_name_appends(
    records: Seq<CommandView>,
    name: Seq<char>,
    cmd: Seq<char>,
    desc: Option<Seq<char>>,
)
    requires
        forall|j: int| 0 <= j < records.len() ==> records[j].name != name,
    ensures
        upsert(records, name, cmd, desc).len() == records.len() + 1,
        forall|j: int| 0 <= j < records.len() ==> upsert(records, name, cmd, desc)[j] == records[j],
        upsert(records, name, cmd, desc)[records.len() as int] == (CommandView { name, cmd, desc }),
{
    position_is_first_exact_match(records, name);
}

/// Adding a name that a record holds changes no position: the first record
/// of that name gets the new command line, and a new description only if
/// one is supplied; every other record stays as it was.
pub proof fn add_of_known_name_updates_in_place(
    records: Seq<CommandView>,
    name: Seq<char>,
    cmd: Seq<char>,
    desc: Option<Seq<char>>,
)
    requires
        exists|j: int| 0 <= j < records.len() && records[j].name == name,
    ensures
        position(records, name) is Some,
        ({
            let i = position(records, name).unwrap();
            let after = upsert(records, name, cmd, desc);
            &&& 0 <= i < records.len()
            &&& after.len() == records.len()
            &&& after[i].name == name
            &&& after[i].cmd == cmd
            &&& desc is None ==> after[i].desc == records[i].desc
            &&& desc is Some ==> after[i].desc == desc
            &&& forall|j: int| 0 <= j < records.len() && j != i ==> after[j] == records[j]
        }),
{
    position_is_first_exact_match(records, name);
}

/// After adding a name, looking it up finds a record with the command line
/// that was given.
pub proof fn added_name_is_found(
    records: Seq<CommandView>,
    name: Seq<char>,
    cmd: Seq<char>,
    desc: Option<Seq<char>>,
)
    ensures
        position(upsert(records, name, cmd, desc), name) is Some,
        upsert(records, name, cmd, desc)[position(
            upsert(records, name, cmd, desc),
            name,
        ).unwrap()].cmd == cmd,
{
    let after = upsert(records, name, cmd, desc);
    position_is_first_exact_match(records, name);
    match position(records, name) {
        Some(i) => {
            first_match_is_position(after, name, i);
        },
        None => {
            first_match_is_position(after, name, records.len() as int);
        },
    }
}

/// Adding keeps names unique: where no two records shared a name before,
/// none do after.
pub proof fn add_keeps_names_distinct(
    records: Seq<CommandView>,
    name: Seq<char>,
    cmd: Seq<char>,
    desc: Option<Seq<char>>,
)
    requires
        distinct_names(records),
    ensures
        distinct_names(upsert(records, name, cmd, desc)),
{
    position_is_first_exact_match(records, name);
}

/// After removing a name no record holds it, and looking it up finds
/// nothing.
pub proof fn removed_name_is_gone(records: Seq<CommandView>, name: Seq<char>)
    ensures
        forall|j: int|
            0 <= j < without(records, name).len() ==> without(records, name)[j].name != name,
        position(without(records, name), name) is None,
        without(records, name).len() <= records.len(),
{
    let rest = without(records, name);
    records.lemma_filter_len(other_than(name));
    assert forall|j: int| 0 <= j < rest.len() implies rest[j].name != name by {
        records.lemma_filter_pred(other_than(name), j);
    }
    no_match_is_no_position(rest, name);
}

/// Removing a name that no record holds changes nothing.
pub proof fn remove_of_unknown_name_keeps_all(records: Seq<CommandView>, name: Seq<char>)
    requires
        forall|j: int| 0 <= j < records.len() ==> records[j].name != name,
    ensures
        without(records, name) == records,
    decreases records.len(),
{
    reveal(Seq::filter);
    if records.len() > 0 {
        remove_of_unknown_name_keeps_all(records.drop_last(), name);
        assert(records.drop_last().push(records.last()) =~= records);
    }
}

/// What `add` reports.
#[derive(Debug, PartialEq, Eq)]
pub enum Added {
    /// No record had the name: a new one stands at the end.
    Appended,
    /// The record at `index` was revised; `previous` is the command line it
    /// had before.
    Updated { index: usize, previous: String },
}

impl Store {
    /// The empty store.
    pub fn new() -> (store: Store)
        ensures
            store@ == Seq::<CommandView>::empty(),
    {
        let store = Store { commands: Vec::new() };
        assert(store@ =~= Seq::<CommandView>::empty());
        store
    }

    /// The number of records.
    pub fn len(&self) -> (n: usize)
        ensures
            n == self@.len(),
    {
        self.commands.len()
    }

    /// Whether the store holds no record.
    pub fn is_empty(&self) -> (empty: bool)
        ensures
            empty == (self@.len() == 0),
    {
        self.commands.len() == 0
    }

    /// The index of the first record whose name is exactly `name`.
    pub fn find(&self, name: &str) -> (found: Option<usize>)
        ensures
            match found {
                Some(i) => position(self@, name@) == Some(i as int),
                None => position(self@, name@) is None,
            },
    {
        let key = String::from_str(name);
        let mut i: usize = 0;
        while i < self.commands.len()
            invariant
                i <= self.commands@.len(),
                key@ == name@,
                forall|j: int| 0 <= j < i ==> self@[j].name != name@,
            decreases self.commands@.len() - i,
        {
            if self.commands[i].name == key {
                proof {
                    first_match_is_position(self@, name@, i as int);
                }
                return Some(i);
            }
            i += 1;
        }
        proof {
            no_match_is_no_position(self@, name@);
        }
        None
    }

    /// The first record whose name is exactly `name`.
    pub fn get(&self, name: &str) -> (found: Option<&Command>)
        ensures
            match found {
                Some(record) => position(self@, name@) is Some && record@ == self@[position(
                    self@,
                    name@,
                ).unwrap()],
                None => position(self@, name@) is None,
            },
    {
        match self.find(name) {
            Some(i) => {
                proof {
                    position_is_first_exact_match(self@, name@);
                }
                Some(&self.commands[i])
            },
            None => None,
        }
    }

    /// Adds `name`: revises the first record of that name where it stands
    /// (the description only if one is given), or appends a new record.
    pub fn add(&mut self, name: String, cmd: String, desc: Option<String>) -> (outcome: Added)
        ensures
            final(self)@ == upsert(old(self)@, name@, cmd@, text_of(desc)),
            match outcome {
                Added::Appended => position(old(self)@, name@) is None,
                Added::Updated { index, previous } => {
                    &&& position(old(self)@, name@) == Some(index as int)
                    &&& previous@ == old(self)@[index as int].cmd
                },
            },
    {
        let found = self.find(name.as_str());
        proof {
            position_is_first_exact_match(self@, name@);
        }
        match found {
            Some(index) => {
                let current = &self.commands[index];
                let previous = current.cmd.clone();
                let kept = match desc {
                    Some(d) => Some(d),
                    None => copy_text(&current.desc),
                };
                let record = Command { name: current.name.clone(), cmd, desc: kept };
                self.commands.set(index, record);
                assert(self@ =~= upsert(old(self)@, name@, cmd@, text_of(desc)));
                Added::Updated { index, previous }
            },
            None => {
                self.commands.push(Command::new(name, cmd, desc));
                assert(self@ =~= upsert(old(self)@, name@, cmd@, text_of(desc)));
                Added::Appended
            },
        }
    }

    /// Removes every record whose name is exactly `name`; the others keep
    /// their order.
    pub fn remove(&mut self, name: &str)
        ensures
            final(self)@ == without(old(self)@, name@),
    {
        let key = String::from_str(name);
        let mut kept: Vec<Command> = Vec::new();
        let mut i: usize = 0;
        proof {
            reveal(Seq::filter);
            assert(self@.take(0) =~= Seq::<CommandView>::empty());
            assert(records_of(kept@) =~= Seq::<CommandView>::empty());
        }
        while i < self.commands.len()
            invariant
                i <= self.commands@.len(),
                *self == *old(self),
                key@ == name@,
                records_of(kept@) == without(self@.take(i as int), name@),
            decreases self.commands@.len() - i,
        {
            let ghost before = records_of(kept@);
            if self.commands[i].name != key {
                kept.push(self.commands[i].clone());
                assert(records_of(kept@) =~= before.push(self@[i as int]));
            }
            proof {
                reveal(Seq::filter);
                let next = self@.take(i as int + 1);
                assert(next.drop_last() =~= self@.take(i as int));
                assert(next.last() == self@[i as int]);
                assert(other_than(name@)(self@[i as int]) == (self@[i as int].name != name@));
            }
            i += 1;
        }
        proof {
            assert(self@.take(i as int) =~= self@);
        }
        self.commands = kept;
    }
}

} // verus!
