//! A parsed manifest and the questions it answers.

use crate::dependencies::Dependencies;
use crate::document::{
    lookup, parse, parsed, table_entries, table_get, value_as_str, value_as_table, value_node,
    Entries, Node,
};
use crate::error::{Error, TomlError};
use crate::model::{
    answers_of, candidates, decides, first_match, name_answers_of, search_outcome, Rule,
};
use crate::package::{normalized, view_of, Package, PackageView};
use crate::predicate::{ByName, ByNameAndVersion};
use crate::search::find;
use crate::theory::lemma_outcome_decided;
use vstd::prelude::*;

verus! {

/// What a [`Manifest`] holds: the document and the kind of dependencies that
/// a search goes through.
pub struct ManifestView {
    /// The entries of the top-level table.
    pub document: Entries,
    /// The kind of dependencies to be searched.
    pub dependencies: Dependencies,
}

impl ManifestView {
    /// Every entry that a search of this manifest looks at, in the order in
    /// which it does.
    pub open spec fn candidates(self) -> Entries {
        candidates(self.document, self.dependencies.tables())
    }
}

/// The manifest of cargo.
#[derive(Debug)]
pub struct Manifest {
    manifest: toml::map::Map<String, toml::Value>,
    /// The kind of dependencies to be searched.
    pub dependencies: Dependencies,
}

impl View for Manifest {
    type V = ManifestView;

    closed spec fn view(&self) -> ManifestView {
        ManifestView { document: table_entries(self.manifest), dependencies: self.dependencies }
    }
}

impl Clone for Manifest {
    fn clone(&self) -> (copy: Self)
        ensures
            copy@ == self@,
    {
        Manifest { manifest: self.manifest.clone(), dependencies: self.dependencies }
    }
}

/// The value that a value holds under `key`: that of a table's entry, and
/// nothing where the value is no table or the table has no such entry.
pub open spec fn field(value: Node, key: Seq<char>) -> Option<Node> {
    match value {
        Node::Table(entries) => lookup(entries, key),
        _ => None,
    }
}

/// The package that a manifest declares in its `package` section, or the
/// reason for which it declares none.
pub open spec fn own_package(document: Entries) -> Result<PackageView, Seq<char>> {
    match lookup(document, "package"@) {
        None => Err("[package] section is missing"@),
        Some(section) => match field(section, "name"@) {
            None => Err("[package] section is missing `name` field"@),
            Some(Node::Text(name)) => match field(section, "version"@) {
                None => Err("[package] section is missing `version` field"@),
                Some(Node::Text(version)) => Ok(
                    PackageView { key: name, package: None, name: normalized(name), version },
                ),
                Some(_) => Err("`version` field in [package] section is not a string"@),
            },
            Some(_) => Err("`name` field in [package] section is not a string"@),
        },
    }
}

/// The value under `key` in a table value.
fn value_get<'a>(value: &'a toml::Value, key: &str) -> (inner: Option<&'a toml::Value>)
    ensures
        match inner {
            Some(v) => field(value_node(*value), key@) == Some(value_node(*v)),
            None => field(value_node(*value), key@) is None,
        },
{
    match value_as_table(value) {
        Some(table) => table_get(table, key),
        None => None,
    }
}

impl Manifest {
    /// Creates a new `Manifest` from a toml text. It searches the default
    /// kind of dependencies.
    pub fn from_toml(s: &str) -> (made: Result<Manifest, Error>)
        ensures
            match made {
                Ok(manifest) => parsed(s@) == Some(manifest@.document) && manifest@.dependencies
                    == Dependencies::Default,
                Err(error) => parsed(s@) is None && error is Toml,
            },
    {
        match parse(s) {
            Ok(manifest) => Ok(Manifest { manifest, dependencies: Dependencies::default() }),
            Err(error) => Err(Error::Toml(TomlError { error })),
        }
    }

    /// The kind of dependencies to be searched.
    pub fn dependencies(&self) -> (kind: Dependencies)
        ensures
            kind == self@.dependencies,
    {
        self.dependencies
    }

    /// Sets the kind of dependencies to be searched.
    pub fn set_dependencies(&mut self, dependencies: Dependencies)
        ensures
            final(self)@ == (ManifestView { dependencies, ..old(self)@ }),
    {
        self.dependencies = dependencies;
    }

    /// Find the crate, and returns its package information.
    ///
    /// The first argument of the closure is the original name of the package
    /// and the second argument is the version of the package.
    ///
    /// The entries of [`ManifestView::candidates`] are gone through in order.
    /// Of each, the closure is asked about the upstream name first, where
    /// the entry renames its package, and about the key only if it says no
    /// to that. The first entry to which it says yes is described; where it
    /// says no to all of them, nothing is found. For a closure that computes
    /// a function of its arguments, that is the first match of the function.
    pub fn find_package<F: FnMut(&str, &str) -> bool>(&self, predicate: F) -> (found: Option<
        Package,
    >)
        requires
            forall|n: &str, v: &str| call_requires(predicate, (n, v)),
        ensures
            search_outcome(answers_of(predicate), self@.candidates(), view_of(found)),
            forall|rule: Rule| #[trigger]
                decides(answers_of(predicate), rule) ==> view_of(found) == first_match(
                    rule,
                    self@.candidates(),
                ),
    {
        let mut predicate = ByNameAndVersion(predicate);
        let found = find(&self.manifest, self.dependencies, &mut predicate);
        proof {
            let answers = answers_of(predicate.0);
            assert forall|rule: Rule| #[trigger] decides(answers, rule) implies view_of(found)
                == first_match(rule, self@.candidates()) by {
                lemma_outcome_decided(answers, rule, self@.candidates(), view_of(found));
            }
        }
        found
    }

    /// Find the crate, and returns its package information.
    ///
    /// The argument of the closure is the original name of the package. This
    /// is [`Manifest::find_package`] for a closure that does not look at the
    /// version.
    pub fn find<F: FnMut(&str) -> bool>(&self, predicate: F) -> (found: Option<Package>)
        requires
            forall|n: &str| call_requires(predicate, (n,)),
        ensures
            search_outcome(name_answers_of(predicate), self@.candidates(), view_of(found)),
            forall|rule: Rule| #[trigger]
                decides(name_answers_of(predicate), rule) ==> view_of(found) == first_match(
                    rule,
                    self@.candidates(),
                ),
    {
        let ghost answers = name_answers_of(predicate);
        let mut predicate = ByName(predicate);
        let found = find(&self.manifest, self.dependencies, &mut predicate);
        proof {
            assert forall|rule: Rule| #[trigger] decides(answers, rule) implies view_of(found)
                == first_match(rule, self@.candidates()) by {
                lemma_outcome_decided(answers, rule, self@.candidates(), view_of(found));
            }
        }
        found
    }

    /// The package for the crate that this manifest represents: the `name`
    /// and the `version` of its `package` section. Where the section or one
    /// of the two is missing, or one of the two is no string, the manifest is
    /// invalid, and the error says which it is.
    pub fn crate_package(&self) -> (package: Result<Package, Error>)
        ensures
            match package {
                Ok(found) => own_package(self@.document) == Ok::<PackageView, Seq<char>>(found@),
                Err(error) => error matches Error::InvalidManifest(reason) && own_package(
                    self@.document,
                ) == Err::<PackageView, Seq<char>>(reason@),
            },
    {
        let section = match table_get(&self.manifest, "package") {
            Some(section) => section,
            None => return Err(Error::invalid_manifest("[package] section is missing")),
        };
        let name = match value_get(section, "name") {
            Some(name) => name,
            None => return Err(
                Error::invalid_manifest("[package] section is missing `name` field"),
            ),
        };
        let key = match value_as_str(name) {
            Some(key) => key,
            None => return Err(
                Error::invalid_manifest("`name` field in [package] section is not a string"),
            ),
        };
        let version = match value_get(section, "version") {
            Some(version) => version,
            None => return Err(
                Error::invalid_manifest("[package] section is missing `version` field"),
            ),
        };
        let version = match value_as_str(version) {
            Some(version) => version,
            None => return Err(
                Error::invalid_manifest("`version` field in [package] section is not a string"),
            ),
        };
        Ok(Package::new(key, None, version))
    }
}

/// Find the crate in the manifest that the text holds, among its
/// `dependencies` and `dev-dependencies`.
///
/// The argument of the closure is the original name of the package. A text
/// that the parser refuses gives [`Error::Toml`], and a manifest in which
/// the closure picks no dependency gives [`Error::NotFound`]. In the name of
/// what is found, `-` is replaced with `_`.
pub fn find_crate<F: FnMut(&str) -> bool>(manifest: &str, predicate: F) -> (found: Result<
    Package,
    Error,
>)
    requires
        forall|n: &str| call_requires(predicate, (n,)),
    ensures
        match parsed(manifest@) {
            Some(document) => {
                let entries = candidates(document, Dependencies::Default.tables());
                let outcome = match found {
                    Ok(package) => Some(package@),
                    Err(_) => None,
                };
                &&& found matches Err(error) ==> error is NotFound
                &&& search_outcome(name_answers_of(predicate), entries, outcome)
                &&& forall|rule: Rule| #[trigger]
                    decides(name_answers_of(predicate), rule) ==> outcome == first_match(
                        rule,
                        entries,
                    )
            },
            None => found matches Err(error) && error is Toml,
        },
{
    match Manifest::from_toml(manifest) {
        Ok(manifest) => match manifest.find(predicate) {
            Some(package) => Ok(package),
            None => Err(Error::NotFound),
        },
        Err(error) => Err(error),
    }
}

} // verus!
