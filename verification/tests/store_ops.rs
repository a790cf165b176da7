use runer::record::Command;
use runer::store::{Added, Store};

fn record(name: &str, cmd: &str, desc: Option<&str>) -> Command {
    Command::new(name.to_string(), cmd.to_string(), desc.map(|d| d.to_string()))
}

fn sample() -> Store {
    Store {
        commands: vec![
            record("build", "make all", Some("Build project")),
            record("test", "make test", None),
            record("fmt", "cargo fmt", Some("Format")),
        ],
    }
}

#[test]
fn new_keeps_the_three_fields() {
    let c = Command::new("a".to_string(), "b".to_string(), Some("c".to_string()));
    assert_eq!(c.name, "a");
    assert_eq!(c.cmd, "b");
    assert_eq!(c.desc, Some("c".to_string()));
    let d = Command::new("a".to_string(), "b".to_string(), None);
    assert_eq!(d.desc, None);
}

#[test]
fn clone_is_equal() {
    let c = record("a", "b", Some("c"));
    assert_eq!(c.clone(), c);
    let d = record("a", "b", None);
    assert_eq!(d.clone(), d);
}

#[test]
fn new_store_is_empty() {
    let store = Store::new();
    assert!(store.is_empty());
    assert_eq!(store.len(), 0);
    assert_eq!(store.find("build"), None);
}

#[test]
fn add_of_new_name_appends_and_keeps_order() {
    let mut store = sample();
    let outcome = store.add("run".to_string(), "cargo run".to_string(), None);
    assert_eq!(outcome, Added::Appended);
    assert_eq!(store.len(), 4);
    assert_eq!(store.commands[0], record("build", "make all", Some("Build project")));
    assert_eq!(store.commands[1], record("test", "make test", None));
    assert_eq!(store.commands[2], record("fmt", "cargo fmt", Some("Format")));
    assert_eq!(store.commands[3], record("run", "cargo run", None));
}

#[test]
fn add_of_known_name_updates_in_place() {
    let mut store = sample();
    let outcome = store.add("test".to_string(), "cargo test".to_string(), None);
    assert_eq!(outcome, Added::Updated { index: 1, previous: "make test".to_string() });
    assert_eq!(store.len(), 3);
    assert_eq!(store.commands[0], record("build", "make all", Some("Build project")));
    assert_eq!(store.commands[1], record("test", "cargo test", None));
    assert_eq!(store.commands[2], record("fmt", "cargo fmt", Some("Format")));
}

#[test]
fn add_without_description_keeps_the_old_one() {
    let mut store = sample();
    store.add("fmt".to_string(), "rustfmt".to_string(), None);
    assert_eq!(store.commands[2], record("fmt", "rustfmt", Some("Format")));
}

#[test]
fn add_with_description_replaces_the_old_one() {
    let mut store = sample();
    store.add("fmt".to_string(), "rustfmt".to_string(), Some("Tidy".to_string()));
    assert_eq!(store.commands[2], record("fmt", "rustfmt", Some("Tidy")));
    store.add("test".to_string(), "make test".to_string(), Some("Tests".to_string()));
    assert_eq!(store.commands[1], record("test", "make test", Some("Tests")));
}

#[test]
fn add_updates_only_the_first_of_two_equal_names() {
    let mut store = Store {
        commands: vec![record("a", "1", None), record("b", "2", None), record("a", "3", None)],
    };
    let outcome = store.add("a".to_string(), "9".to_string(), None);
    assert_eq!(outcome, Added::Updated { index: 0, previous: "1".to_string() });
    assert_eq!(
        store.commands,
        vec![record("a", "9", None), record("b", "2", None), record("a", "3", None)]
    );
}

#[test]
fn scenario_add_then_update_keeps_description() {
    let mut store = Store::new();
    store.add("build".to_string(), "make all".to_string(), Some("Build project".to_string()));
    assert_eq!(store.commands, vec![record("build", "make all", Some("Build project"))]);
    store.add("build".to_string(), "make clean".to_string(), None);
    assert_eq!(store.commands, vec![record("build", "make clean", Some("Build project"))]);
}

#[test]
fn lookup_is_case_sensitive() {
    let store = Store { commands: vec![record("foo", "echo foo", None)] };
    assert_eq!(store.find("Foo"), None);
    assert!(store.get("Foo").is_none());
    assert_eq!(store.find("foo"), Some(0));
    assert_eq!(store.get("foo"), Some(&record("foo", "echo foo", None)));
}

#[test]
fn lookup_does_not_trim() {
    let store = Store { commands: vec![record("foo", "echo foo", None)] };
    assert_eq!(store.find(" foo"), None);
    assert_eq!(store.find("foo "), None);
    assert_eq!(store.find("fo"), None);
    assert_eq!(store.find(""), None);
}

#[test]
fn find_gives_the_first_of_two_equal_names() {
    let store = Store {
        commands: vec![record("b", "2", None), record("a", "1", None), record("a", "3", None)],
    };
    assert_eq!(store.find("a"), Some(1));
    assert_eq!(store.get("a"), Some(&record("a", "1", None)));
}

#[test]
fn remove_drops_every_record_of_the_name() {
    let mut store = Store {
        commands: vec![
            record("a", "1", None),
            record("b", "2", Some("two")),
            record("a", "3", None),
            record("c", "4", None),
        ],
    };
    store.remove("a");
    assert_eq!(store.commands, vec![record("b", "2", Some("two")), record("c", "4", None)]);
    assert_eq!(store.find("a"), None);
}

#[test]
fn remove_of_unknown_name_changes_nothing() {
    let mut store = sample();
    store.remove("Build");
    assert_eq!(store, sample());
}

#[test]
fn remove_from_empty_store() {
    let mut store = Store::new();
    store.remove("a");
    assert!(store.is_empty());
}
