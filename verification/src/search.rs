//! The search itself, over the tables and values of a parsed manifest.

use crate::dependencies::{texts, Dependencies};
use crate::document::{
    table_entries, table_get, table_iter, value_as_str, value_as_table, value_node,
};
use crate::model::{
    all_rejected, candidates, entry_package, entry_version, field_text, search_outcome, section,
    sections, target_entries, targets_entries,
};
use crate::package::{view_of, Package};
use crate::predicate::Predicate;
use crate::theory::{
    lemma_all_rejected_append, lemma_outcome_after, lemma_outcome_before, lemma_sections_split,
    lemma_targets_split,
};
use vstd::prelude::*;

verus! {

/// The characters of a string that may be missing.
pub open spec fn text_of(text: Option<&str>) -> Option<Seq<char>> {
    match text {
        Some(text) => Some(text@),
        None => None,
    }
}

/// The string that a table value holds under `field`.
fn field_str<'a>(value: &'a toml::Value, field: &str) -> (text: Option<&'a str>)
    ensures
        text_of(text) == field_text(value_node(*value), field@),
{
    match value_as_table(value) {
        Some(table) => match table_get(table, field) {
            Some(inner) => value_as_str(inner),
            None => None,
        },
        None => None,
    }
}

/// The version requirement that a dependency entry states.
fn version<'a>(value: &'a toml::Value) -> (version: &'a str)
    ensures
        version@ == entry_version(value_node(*value)),
{
    match value_as_str(value) {
        Some(text) => text,
        None => match field_str(value, "version") {
            Some(text) => text,
            None => "*",
        },
    }
}

/// The upstream name of a renamed dependency, where the predicate says yes
/// to it.
fn package<'a, P: Predicate>(value: &'a toml::Value, version: &str, predicate: &mut P) -> (package:
    Option<&'a str>)
    requires
        old(predicate).ready(),
    ensures
        final(predicate).ready(),
        final(predicate).answers() == old(predicate).answers(),
        match package {
            Some(name) => entry_package(value_node(*value)) == Some(name@) && old(
                predicate,
            ).answers()(name@, version@, true),
            None => entry_package(value_node(*value)) matches Some(name) ==> old(
                predicate,
            ).answers()(name, version@, false),
        },
{
    match field_str(value, "package") {
        Some(name) => if predicate.ask(name, version) {
            Some(name)
        } else {
            None
        },
        None => None,
    }
}

/// Goes through the entries of one dependency table in order and describes
/// the first that the predicate picks.
pub fn find_from_dependencies<P: Predicate>(
    table: &toml::map::Map<String, toml::Value>,
    predicate: &mut P,
) -> (found: Option<Package>)
    requires
        old(predicate).ready(),
    ensures
        final(predicate).ready(),
        final(predicate).answers() == old(predicate).answers(),
        search_outcome(old(predicate).answers(), table_entries(*table), view_of(found)),
{
    let ghost answers = predicate.answers();
    let ghost all = table_entries(*table);
    let entries = table_iter(table);
    let mut i: usize = 0;
    while i < entries.len()
        invariant
            all == table_entries(*table),
            i <= entries@.len() == all.len(),
            forall|j: int|
                0 <= j < entries@.len() ==> all[j] == (
                    (#[trigger] entries@[j]).0@,
                    value_node(*entries@[j].1),
                ),
            predicate.ready(),
            predicate.answers() == answers,
            answers == old(predicate).answers(),
            all_rejected(answers, all.take(i as int)),
        decreases entries@.len() - i,
    {
        let (key, value) = entries[i];
        let key = key.as_str();
        let version = version(value);
        let package = package(value, version, predicate);
        if package.is_some() || predicate.ask(key, version) {
            return Some(Package::new(key, package, version));
        }
        i = i + 1;
    }
    assert(all.take(i as int) =~= all);
    None
}

/// Searches the dependency table that `table` holds under `name`, if it
/// holds one.
fn find_inner<P: Predicate>(
    table: &toml::map::Map<String, toml::Value>,
    name: &str,
    predicate: &mut P,
) -> (found: Option<Package>)
    requires
        old(predicate).ready(),
    ensures
        final(predicate).ready(),
        final(predicate).answers() == old(predicate).answers(),
        search_outcome(
            old(predicate).answers(),
            section(table_entries(*table), name@),
            view_of(found),
        ),
{
    match table_get(table, name) {
        Some(value) => match value_as_table(value) {
            Some(dependencies) => find_from_dependencies(dependencies, predicate),
            None => None,
        },
        None => None,
    }
}

/// Searches the dependency tables that `table` holds under `names`, one
/// after the other, and stops at the first match.
pub fn find_in_tables<P: Predicate>(
    table: &toml::map::Map<String, toml::Value>,
    names: &[&str],
    predicate: &mut P,
) -> (found: Option<Package>)
    requires
        old(predicate).ready(),
    ensures
        final(predicate).ready(),
        final(predicate).answers() == old(predicate).answers(),
        search_outcome(
            old(predicate).answers(),
            sections(table_entries(*table), texts(names@)),
            view_of(found),
        ),
{
    let ghost answers = predicate.answers();
    let ghost entries = table_entries(*table);
    let ghost all = texts(names@);
    let mut k: usize = 0;
    while k < names.len()
        invariant
            k <= names@.len() == all.len(),
            all == texts(names@),
            entries == table_entries(*table),
            predicate.ready(),
            predicate.answers() == answers,
            answers == old(predicate).answers(),
            all_rejected(answers, sections(entries, all.take(k as int))),
        decreases names@.len() - k,
    {
        let found = find_inner(table, names[k], predicate);
        proof {
            let upto = all.take(k + 1);
            assert(upto.drop_last() =~= all.take(k as int));
            lemma_outcome_after(
                answers,
                sections(entries, all.take(k as int)),
                section(entries, names@[k as int]@),
                view_of(found),
            );
        }
        if let Some(package) = found {
            proof {
                lemma_sections_split(entries, all, k + 1);
                lemma_outcome_before(
                    answers,
                    sections(entries, all.take(k + 1)),
                    sections(entries, all.skip(k + 1)),
                    package@,
                );
            }
            return Some(package);
        }
        k = k + 1;
    }
    assert(all.take(k as int) =~= all);
    None
}

/// Searches a manifest: first the dependency tables of the given kind at the
/// top level, then, where none of their entries matches, those of each target
/// under `target`, target by target.
pub fn find<P: Predicate>(
    manifest: &toml::map::Map<String, toml::Value>,
    dependencies: Dependencies,
    predicate: &mut P,
) -> (found: Option<Package>)
    requires
        old(predicate).ready(),
    ensures
        final(predicate).ready(),
        final(predicate).answers() == old(predicate).answers(),
        search_outcome(
            old(predicate).answers(),
            candidates(table_entries(*manifest), dependencies.tables()),
            view_of(found),
        ),
{
    let ghost answers = predicate.answers();
    let ghost document = table_entries(*manifest);
    let ghost all = dependencies.tables();
    let ghost top = sections(document, all);
    let names = dependencies.as_slice();
    if let Some(package) = find_in_tables(manifest, names, predicate) {
        proof {
            lemma_outcome_before(
                answers,
                top,
                targets_entries(section(document, "target"@), all),
                package@,
            );
        }
        return Some(package);
    }
    let targets = match table_get(manifest, "target") {
        Some(value) => match value_as_table(value) {
            Some(targets) => targets,
            None => return None,
        },
        None => return None,
    };
    let ghost under = table_entries(*targets);
    let targets = table_iter(targets);
    let mut t: usize = 0;
    while t < targets.len()
        invariant
            t <= targets@.len() == under.len(),
            forall|j: int|
                0 <= j < targets@.len() ==> under[j] == (
                    (#[trigger] targets@[j]).0@,
                    value_node(*targets@[j].1),
                ),
            all == texts(names@),
            predicate.ready(),
            predicate.answers() == answers,
            answers == old(predicate).answers(),
            all_rejected(answers, targets_entries(under.take(t as int), all)),
            all_rejected(answers, top),
            candidates(table_entries(*manifest), dependencies.tables()) == top + targets_entries(
                under,
                all,
            ),
        decreases targets@.len() - t,
    {
        let found = match value_as_table(targets[t].1) {
            Some(table) => find_in_tables(table, names, predicate),
            None => None,
        };
        proof {
            let upto = under.take(t + 1);
            assert(upto.drop_last() =~= under.take(t as int));
            lemma_outcome_after(
                answers,
                targets_entries(under.take(t as int), all),
                target_entries(under[t as int].1, all),
                view_of(found),
            );
        }
        if let Some(package) = found {
            proof {
                lemma_targets_split(under, all, t + 1);
                lemma_outcome_before(
                    answers,
                    targets_entries(under.take(t + 1), all),
                    targets_entries(under.skip(t + 1), all),
                    package@,
                );
                lemma_outcome_after(answers, top, targets_entries(under, all), Some(package@));
            }
            return Some(package);
        }
        t = t + 1;
    }
    proof {
        assert(under.take(t as int) =~= under);
        lemma_all_rejected_append(answers, top, targets_entries(under, all));
    }
    None
}

} // verus!
