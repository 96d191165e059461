//! The search as mathematics: which entries of a manifest are looked at, in
//! which order, and which of them a predicate picks.

use crate::document::{lookup, Entries, Node};
use crate::package::{normalized, PackageView};
use vstd::prelude::*;

verus! {

/// What a predicate may say: `answers(name, version, b)` holds where the
/// predicate, asked about `name` and `version`, may return `b`.
pub type Answers = spec_fn(Seq<char>, Seq<char>, bool) -> bool;

/// A predicate as a function of a name and a version requirement.
pub type Rule = spec_fn(Seq<char>, Seq<char>) -> bool;

/// What a predicate on a name and a version requirement may say.
pub open spec fn answers_of<F: FnMut(&str, &str) -> bool>(predicate: F) -> Answers {
    |name: Seq<char>, version: Seq<char>, answer: bool|
        exists|n: &str, v: &str|
            n@ == name && v@ == version && #[trigger] call_ensures(predicate, (n, v), answer)
}

/// What a predicate on a name alone may say; the version requirement plays
/// no part.
pub open spec fn name_answers_of<F: FnMut(&str) -> bool>(predicate: F) -> Answers {
    |name: Seq<char>, version: Seq<char>, answer: bool|
        exists|n: &str| n@ == name && #[trigger] call_ensures(predicate, (n,), answer)
}

/// The predicate computes `rule`: whatever it returns is what `rule` says.
pub open spec fn decides(answers: Answers, rule: Rule) -> bool {
    forall|name: Seq<char>, version: Seq<char>, answer: bool| #[trigger]
        answers(name, version, answer) ==> answer == rule(name, version)
}

/// The string under `field` in a table value; nothing where the value is no
/// table, has no such field, or holds something else than a string there.
pub open spec fn field_text(value: Node, field: Seq<char>) -> Option<Seq<char>> {
    match value {
        Node::Table(entries) => match lookup(entries, field) {
            Some(Node::Text(text)) => Some(text),
            _ => None,
        },
        _ => None,
    }
}

/// The version requirement of a dependency entry: the entry's value where
/// that is a string, else its `version` string, else `*`.
pub open spec fn entry_version(value: Node) -> Seq<char> {
    match value {
        Node::Text(text) => text,
        _ => match field_text(value, "version"@) {
            Some(text) => text,
            None => "*"@,
        },
    }
}

/// The upstream name that a dependency entry gives with `package`, if it
/// gives one.
pub open spec fn entry_package(value: Node) -> Option<Seq<char>> {
    field_text(value, "package"@)
}

/// The predicate may turn the entry down: it may say no to the upstream
/// name, where the entry has one, and no to the key.
pub open spec fn rejects(answers: Answers, key: Seq<char>, value: Node) -> bool {
    let version = entry_version(value);
    &&& entry_package(value) matches Some(package) ==> answers(package, version, false)
    &&& answers(key, version, false)
}

/// The predicate may pick the entry, and `found` is then what describes it:
/// either it says yes to the upstream name, which `found` then carries, or it
/// says no to that name, where there is one, and yes to the key.
pub open spec fn accepts(
    answers: Answers,
    key: Seq<char>,
    value: Node,
    found: PackageView,
) -> bool {
    let version = entry_version(value);
    &&& found.key == key
    &&& found.name == normalized(key)
    &&& found.version == version
    &&& match found.package {
        Some(package) => entry_package(value) == Some(package) && answers(package, version, true),
        None => {
            &&& entry_package(value) matches Some(package) ==> answers(package, version, false)
            &&& answers(key, version, true)
        },
    }
}

/// The predicate may turn down every one of the entries.
pub open spec fn all_rejected(answers: Answers, entries: Entries) -> bool {
    forall|j: int|
        0 <= j < entries.len() ==> rejects(answers, (#[trigger] entries[j]).0, entries[j].1)
}

/// `found` is a possible result of going through `entries` in order and
/// stopping at the first that the predicate picks.
pub open spec fn search_outcome(
    answers: Answers,
    entries: Entries,
    found: Option<PackageView>,
) -> bool {
    match found {
        Some(package) => exists|i: int|
            0 <= i < entries.len() && accepts(
                answers,
                (#[trigger] entries[i]).0,
                entries[i].1,
                package,
            ) && all_rejected(answers, entries.take(i)),
        None => all_rejected(answers, entries),
    }
}

/// What `rule` makes of one entry.
pub open spec fn entry_match(rule: Rule, key: Seq<char>, value: Node) -> Option<PackageView> {
    let version = entry_version(value);
    let package = match entry_package(value) {
        Some(package) => if rule(package, version) {
            Some(package)
        } else {
            None
        },
        None => None,
    };
    if package is Some || rule(key, version) {
        Some(PackageView { key, package, name: normalized(key), version })
    } else {
        None
    }
}

/// The first entry, in order, that `rule` picks.
pub open spec fn first_match(rule: Rule, entries: Entries) -> Option<PackageView>
    decreases entries.len(),
{
    if entries.len() == 0 {
        None
    } else {
        match entry_match(rule, entries[0].0, entries[0].1) {
            Some(package) => Some(package),
            None => first_match(rule, entries.drop_first()),
        }
    }
}

/// The entries of the table that `table` holds under `name`; none where it
/// holds no table there.
pub open spec fn section(table: Entries, name: Seq<char>) -> Entries {
    match lookup(table, name) {
        Some(Node::Table(entries)) => entries,
        _ => Seq::empty(),
    }
}

/// The entries of the tables that `table` holds under `names`, one table
/// after the other in the order of `names`.
pub open spec fn sections(table: Entries, names: Seq<Seq<char>>) -> Entries
    decreases names.len(),
{
    if names.len() == 0 {
        Seq::empty()
    } else {
        sections(table, names.drop_last()) + section(table, names.last())
    }
}

/// The entries that one target contributes: its tables under `names`, where
/// the target is a table at all.
pub open spec fn target_entries(target: Node, names: Seq<Seq<char>>) -> Entries {
    match target {
        Node::Table(table) => sections(table, names),
        _ => Seq::empty(),
    }
}

/// The entries that the targets contribute, target after target.
pub open spec fn targets_entries(targets: Entries, names: Seq<Seq<char>>) -> Entries
    decreases targets.len(),
{
    if targets.len() == 0 {
        Seq::empty()
    } else {
        targets_entries(targets.drop_last(), names) + target_entries(targets.last().1, names)
    }
}

/// Every entry that a search of `document` looks at, in the order in which it
/// does: the tables under `names` at the top level first, then those of each
/// target under `target`.
pub open spec fn candidates(document: Entries, names: Seq<Seq<char>>) -> Entries {
    sections(document, names) + targets_entries(section(document, "target"@), names)
}

/// `entry` stands in one of the tables that `table` holds under `names`.
pub open spec fn in_sections(
    table: Entries,
    names: Seq<Seq<char>>,
    entry: (Seq<char>, Node),
) -> bool {
    exists|k: int| 0 <= k < names.len() && section(table, #[trigger] names[k]).contains(entry)
}

/// `entry` stands in one of the tables that the target holds under `names`.
pub open spec fn in_target(
    target: Node,
    names: Seq<Seq<char>>,
    entry: (Seq<char>, Node),
) -> bool {
    target matches Node::Table(table) && in_sections(table, names, entry)
}

/// `entry` stands in a table that goes by one of `names`, at the top level
/// of `document` or in one of its targets.
pub open spec fn in_named_table(
    document: Entries,
    names: Seq<Seq<char>>,
    entry: (Seq<char>, Node),
) -> bool {
    ||| in_sections(document, names, entry)
    ||| exists|t: int|
        0 <= t < section(document, "target"@).len() && in_target(
            (#[trigger] section(document, "target"@)[t]).1,
            names,
            entry,
        )
}

} // verus!
