//! What holds of every search: lemmas that the search functions are proved
//! with, and the general facts about what a search looks at and finds.

use crate::document::{Entries, Node};
use crate::model::{
    accepts, all_rejected, candidates, decides, entry_match, entry_package, entry_version,
    field_text, first_match, in_named_table, in_sections, in_target, rejects, search_outcome,
    section, sections, target_entries, targets_entries, Answers, Rule,
};
use crate::package::{normalized, PackageView};
use vstd::prelude::*;

verus! {

/// Entries that are all turned down stay so when put one after the other.
pub proof fn lemma_all_rejected_append(answers: Answers, before: Entries, after: Entries)
    requires
        all_rejected(answers, before),
        all_rejected(answers, after),
    ensures
        all_rejected(answers, before + after),
{
}

/// An outcome of a search stays one when entries that are all turned down
/// are put in front.
pub proof fn lemma_outcome_after(
    answers: Answers,
    before: Entries,
    entries: Entries,
    found: Option<PackageView>,
)
    requires
        all_rejected(answers, before),
        search_outcome(answers, entries, found),
    ensures
        search_outcome(answers, before + entries, found),
{
    match found {
        Some(package) => {
            let i = choose|i: int|
                0 <= i < entries.len() && accepts(
                    answers,
                    (#[trigger] entries[i]).0,
                    entries[i].1,
                    package,
                ) && all_rejected(answers, entries.take(i));
            let all = before + entries;
            let at = before.len() + i;
            assert(all[at] == entries[i]);
            assert(all.take(at) =~= before + entries.take(i));
            lemma_all_rejected_append(answers, before, entries.take(i));
        },
        None => {
            lemma_all_rejected_append(answers, before, entries);
        },
    }
}

/// A match stands, whatever entries follow.
pub proof fn lemma_outcome_before(
    answers: Answers,
    entries: Entries,
    after: Entries,
    package: PackageView,
)
    requires
        search_outcome(answers, entries, Some(package)),
    ensures
        search_outcome(answers, entries + after, Some(package)),
{
    let i = choose|i: int|
        0 <= i < entries.len() && accepts(answers, (#[trigger] entries[i]).0, entries[i].1, package)
            && all_rejected(answers, entries.take(i));
    let all = entries + after;
    assert(all[i] == entries[i]);
    assert(all.take(i) =~= entries.take(i));
}

/// The tables under `names` are those under its first `k` names followed by
/// those under the rest.
pub proof fn lemma_sections_split(table: Entries, names: Seq<Seq<char>>, k: int)
    requires
        0 <= k <= names.len(),
    ensures
        sections(table, names) == sections(table, names.take(k)) + sections(table, names.skip(k)),
    decreases names.len(),
{
    if k == names.len() {
        assert(names.take(k) =~= names);
    } else {
        let front = names.drop_last();
        lemma_sections_split(table, front, k);
        assert(front.take(k) =~= names.take(k));
        assert(front.skip(k) =~= names.skip(k).drop_last());
        assert(sections(table, names) =~= sections(table, names.take(k)) + sections(
            table,
            names.skip(k),
        ));
    }
}

/// The entries of the targets are those of the first `k` targets followed by
/// those of the rest.
pub proof fn lemma_targets_split(targets: Entries, names: Seq<Seq<char>>, k: int)
    requires
        0 <= k <= targets.len(),
    ensures
        targets_entries(targets, names) == targets_entries(targets.take(k), names)
            + targets_entries(targets.skip(k), names),
    decreases targets.len(),
{
    if k == targets.len() {
        assert(targets.take(k) =~= targets);
    } else {
        let front = targets.drop_last();
        lemma_targets_split(front, names, k);
        assert(front.take(k) =~= targets.take(k));
        assert(front.skip(k) =~= targets.skip(k).drop_last());
        assert(targets_entries(targets, names) =~= targets_entries(targets.take(k), names)
            + targets_entries(targets.skip(k), names));
    }
}

/// Entries that are all turned down stay so without the first of them.
pub proof fn lemma_all_rejected_rest(answers: Answers, entries: Entries)
    requires
        entries.len() > 0,
        all_rejected(answers, entries),
    ensures
        all_rejected(answers, entries.drop_first()),
{
    let rest = entries.drop_first();
    assert forall|j: int| 0 <= j < rest.len() implies rejects(
        answers,
        (#[trigger] rest[j]).0,
        rest[j].1,
    ) by {
        assert(rest[j] == entries[j + 1]);
    }
}

/// Where the predicate computes `rule`, an entry that it may pick is the
/// entry that `rule` picks, and one that it may turn down `rule` turns down.
pub proof fn lemma_entry_decided(answers: Answers, rule: Rule, key: Seq<char>, value: Node)
    requires
        decides(answers, rule),
    ensures
        rejects(answers, key, value) ==> entry_match(rule, key, value) is None,
        forall|found: PackageView| #[trigger]
            accepts(answers, key, value, found) ==> entry_match(rule, key, value) == Some(found),
{
}

/// Where the predicate computes `rule`, a search has one outcome only: the
/// first entry that `rule` picks.
pub proof fn lemma_outcome_decided(
    answers: Answers,
    rule: Rule,
    entries: Entries,
    found: Option<PackageView>,
)
    requires
        decides(answers, rule),
        search_outcome(answers, entries, found),
    ensures
        found == first_match(rule, entries),
    decreases entries.len(),
{
    if entries.len() > 0 {
        let rest = entries.drop_first();
        lemma_entry_decided(answers, rule, entries[0].0, entries[0].1);
        match found {
            Some(package) => {
                let i = choose|i: int|
                    0 <= i < entries.len() && accepts(
                        answers,
                        (#[trigger] entries[i]).0,
                        entries[i].1,
                        package,
                    ) && all_rejected(answers, entries.take(i));
                if i > 0 {
                    assert(entries.take(i)[0] == entries[0]);
                    assert(rest[i - 1] == entries[i]);
                    assert(rest.take(i - 1) =~= entries.take(i).drop_first());
                    lemma_all_rejected_rest(answers, entries.take(i));
                    lemma_outcome_decided(answers, rule, rest, found);
                }
            },
            None => {
                lemma_all_rejected_rest(answers, entries);
                lemma_outcome_decided(answers, rule, rest, found);
            },
        }
    }
}

/// The first match among entries put one after the other is the first match
/// among the earlier ones, and only where they hold none, that among the
/// later ones.
pub proof fn lemma_first_match_append(rule: Rule, before: Entries, after: Entries)
    ensures
        first_match(rule, before + after) == match first_match(rule, before) {
            Some(package) => Some(package),
            None => first_match(rule, after),
        },
    decreases before.len(),
{
    if before.len() > 0 {
        assert((before + after).drop_first() =~= before.drop_first() + after);
        lemma_first_match_append(rule, before.drop_first(), after);
    }
}

/// A match in a table at the top level wins over any match under `target`:
/// where the top level holds a match, it is the result of the search.
pub proof fn lemma_top_level_first(rule: Rule, document: Entries, names: Seq<Seq<char>>)
    requires
        first_match(rule, sections(document, names)) is Some,
    ensures
        first_match(rule, candidates(document, names)) == first_match(
            rule,
            sections(document, names),
        ),
{
    lemma_first_match_append(
        rule,
        sections(document, names),
        targets_entries(section(document, "target"@), names),
    );
}

/// The targets are searched only where the top level holds no match, and
/// the result is then the first match among them.
pub proof fn lemma_targets_as_fallback(rule: Rule, document: Entries, names: Seq<Seq<char>>)
    requires
        first_match(rule, sections(document, names)) is None,
    ensures
        first_match(rule, candidates(document, names)) == first_match(
            rule,
            targets_entries(section(document, "target"@), names),
        ),
{
    lemma_first_match_append(
        rule,
        sections(document, names),
        targets_entries(section(document, "target"@), names),
    );
}

/// What the tables under `names` hold comes from a table under one of
/// `names`.
pub proof fn lemma_sections_only(table: Entries, names: Seq<Seq<char>>, entry: (Seq<char>, Node))
    requires
        sections(table, names).contains(entry),
    ensures
        in_sections(table, names, entry),
    decreases names.len(),
{
    if names.len() > 0 {
        let front = sections(table, names.drop_last());
        let back = section(table, names.last());
        let i = choose|i: int| 0 <= i < (front + back).len() && (front + back)[i] == entry;
        if i < front.len() {
            lemma_sections_only(table, names.drop_last(), entry);
            let k = choose|k: int|
                0 <= k < names.drop_last().len() && section(
                    table,
                    #[trigger] names.drop_last()[k],
                ).contains(entry);
            assert(names[k] == names.drop_last()[k]);
        } else {
            assert(section(table, names[names.len() - 1]).contains(entry));
        }
    }
}

/// What the targets contribute comes from a table under one of `names` in
/// one of the targets.
pub proof fn lemma_targets_only(targets: Entries, names: Seq<Seq<char>>, entry: (Seq<char>, Node))
    requires
        targets_entries(targets, names).contains(entry),
    ensures
        exists|t: int|
            0 <= t < targets.len() && in_target((#[trigger] targets[t]).1, names, entry),
    decreases targets.len(),
{
    if targets.len() > 0 {
        let front = targets_entries(targets.drop_last(), names);
        let back = target_entries(targets.last().1, names);
        let i = choose|i: int| 0 <= i < (front + back).len() && (front + back)[i] == entry;
        if i < front.len() {
            lemma_targets_only(targets.drop_last(), names, entry);
            let t = choose|t: int|
                0 <= t < targets.drop_last().len() && in_target(
                    (#[trigger] targets.drop_last()[t]).1,
                    names,
                    entry,
                );
            assert(targets[t] == targets.drop_last()[t]);
        } else {
            let t = targets.len() - 1;
            match targets[t].1 {
                Node::Table(table) => {
                    lemma_sections_only(table, names, entry);
                },
                _ => {},
            }
        }
    }
}

/// A search looks at no entry but those of tables that go by one of the
/// names it was given: every entry it looks at stands in such a table, at
/// the top level or in a target.
pub proof fn lemma_candidates_only(
    document: Entries,
    names: Seq<Seq<char>>,
    entry: (Seq<char>, Node),
)
    requires
        candidates(document, names).contains(entry),
    ensures
        in_named_table(document, names, entry),
{
    let top = sections(document, names);
    let under = targets_entries(section(document, "target"@), names);
    let i = choose|i: int| 0 <= i < (top + under).len() && (top + under)[i] == entry;
    if i < top.len() {
        lemma_sections_only(document, names, entry);
    } else {
        lemma_targets_only(section(document, "target"@), names, entry);
    }
}

/// What a search finds describes an entry of a table that goes by one of
/// the names it was given; an entry that stands in other tables only is
/// never found.
pub proof fn lemma_found_in_named_table(
    answers: Answers,
    document: Entries,
    names: Seq<Seq<char>>,
    found: PackageView,
)
    requires
        search_outcome(answers, candidates(document, names), Some(found)),
    ensures
        exists|entry: (Seq<char>, Node)|
            in_named_table(document, names, entry) && #[trigger] accepts(
                answers,
                entry.0,
                entry.1,
                found,
            ),
{
    let all = candidates(document, names);
    let i = choose|i: int|
        0 <= i < all.len() && accepts(answers, (#[trigger] all[i]).0, all[i].1, found)
            && all_rejected(answers, all.take(i));
    lemma_candidates_only(document, names, all[i]);
}

/// Where no table goes by one of the names, at the top level or in a
/// target, a search finds nothing, whatever the other tables hold.
pub proof fn lemma_nothing_without_named_table(
    answers: Answers,
    document: Entries,
    names: Seq<Seq<char>>,
    found: Option<PackageView>,
)
    requires
        search_outcome(answers, candidates(document, names), found),
        forall|entry: (Seq<char>, Node)| !in_named_table(document, names, entry),
    ensures
        found is None,
{
    if let Some(package) = found {
        lemma_found_in_named_table(answers, document, names, package);
    }
}

/// A renamed dependency is found by its upstream name: where `rule` holds of
/// the `package` string of an entry, the entry matches, and what is found
/// carries the key, the identifier made from the key, and the upstream name
/// as the original name.
pub proof fn lemma_renamed_by_upstream_name(
    rule: Rule,
    key: Seq<char>,
    value: Node,
    package: Seq<char>,
)
    requires
        entry_package(value) == Some(package),
        rule(package, entry_version(value)),
    ensures
        entry_match(rule, key, value) == Some(
            PackageView {
                key,
                package: Some(package),
                name: normalized(key),
                version: entry_version(value),
            },
        ),
        entry_match(rule, key, value)->0.original_name() == package,
{
}

/// Where `rule` does not hold of the upstream name of a renamed dependency,
/// the entry matches exactly where `rule` holds of its key, and what is
/// found then carries no upstream name: the key is the original name.
pub proof fn lemma_renamed_by_key(rule: Rule, key: Seq<char>, value: Node, package: Seq<char>)
    requires
        entry_package(value) == Some(package),
        !rule(package, entry_version(value)),
    ensures
        entry_match(rule, key, value) is Some <==> rule(key, entry_version(value)),
        entry_match(rule, key, value) matches Some(found) ==> found.package is None
            && found.original_name() == key,
{
}

/// A table with a `version` string stands for the same version requirement
/// as the bare string, and matches as the bare string does unless `rule`
/// holds of a `package` string in it.
pub proof fn lemma_bare_version(rule: Rule, key: Seq<char>, version: Seq<char>, table: Node)
    requires
        field_text(table, "version"@) == Some(version),
        entry_package(table) matches Some(package) ==> !rule(package, version),
    ensures
        entry_version(table) == entry_version(Node::Text(version)),
        entry_match(rule, key, table) == entry_match(rule, key, Node::Text(version)),
{
}

/// An entry that is no string and holds no `version` string stands for the
/// version requirement `*`.
pub proof fn lemma_default_version(value: Node)
    requires
        !(value is Text),
        field_text(value, "version"@) is None,
    ensures
        entry_version(value) == "*"@,
{
}

} // verus!
