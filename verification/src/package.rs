//! The description of a package that a search hands back, and the rule that
//! turns a manifest key into an identifier.

use vstd::prelude::*;

verus! {

/// What a [`Package`] says, as plain text.
pub struct PackageView {
    /// The key of the dependency as the manifest writes it.
    pub key: Seq<char>,
    /// The upstream name, where the entry renames the package and the
    /// search went by that name.
    pub package: Option<Seq<char>>,
    /// The name to use in code: the key with `_` for every `-`.
    pub name: Seq<char>,
    /// The version requirement, `*` where the manifest gives none.
    pub version: Seq<char>,
}

impl PackageView {
    /// The name under which the package was published: the upstream name
    /// of a renamed dependency, the key of any other.
    pub open spec fn original_name(self) -> Seq<char> {
        match self.package {
            Some(package) => package,
            None => self.key,
        }
    }
}

/// The package information. This has information on the current package name,
/// original package name, and specified version.
#[derive(Debug, PartialEq, Eq)]
pub struct Package {
    /// The key of this dependency in the manifest.
    pub key: String,
    /// The value of the `package` key, where the entry has one and the search
    /// went by it. If this is `None`, the value of `key` is the original name.
    pub package: Option<String>,
    /// The current name of the package: the key, with `_` for every `-`.
    /// Whether that is a valid identifier otherwise is not looked at.
    pub name: String,
    /// The version requirement of the package. This is `*` if no version
    /// requirement is specified.
    pub version: String,
}

impl View for Package {
    type V = PackageView;

    open spec fn view(&self) -> PackageView {
        PackageView {
            key: self.key@,
            package: match self.package {
                Some(package) => Some(package@),
                None => None,
            },
            name: self.name@,
            version: self.version@,
        }
    }
}

impl Clone for Package {
    fn clone(&self) -> (copy: Self)
        ensures
            copy@ == self@,
    {
        Package {
            key: self.key.clone(),
            package: match &self.package {
                Some(package) => Some(package.clone()),
                None => None,
            },
            name: self.name.clone(),
            version: self.version.clone(),
        }
    }
}

impl Package {
    /// The package that an entry under `key` describes, with the upstream name
    /// `package` where the search went by it.
    pub fn new(key: &str, package: Option<&str>, version: &str) -> (made: Package)
        ensures
            made@ == (PackageView {
                key: key@,
                package: match package {
                    Some(p) => Some(p@),
                    None => None,
                },
                name: normalized(key@),
                version: version@,
            }),
    {
        Package {
            key: key.to_owned(),
            package: match package {
                Some(p) => Some(p.to_owned()),
                None => None,
            },
            name: normalize(key),
            version: version.to_owned(),
        }
    }

    /// Returns the original package name.
    pub fn original_name(&self) -> (name: &str)
        ensures
            name@ == self@.original_name(),
    {
        match &self.package {
            Some(package) => package.as_str(),
            None => self.key.as_str(),
        }
    }
}

/// The view of what a search found, if it found anything.
pub open spec fn view_of(found: Option<Package>) -> Option<PackageView> {
    match found {
        Some(package) => Some(package@),
        None => None,
    }
}

/// `String::push`: the string grows by the given character at its end.
pub assume_specification[ String::push ](text: &mut String, c: char)
    ensures
        final(text)@ == old(text)@.push(c),
;

/// The identifier form of a manifest key: every hyphen becomes an underscore.
pub open spec fn normalized(key: Seq<char>) -> Seq<char> {
    Seq::new(
        key.len(),
        |i: int|
            if key[i] == '-' {
                '_'
            } else {
                key[i]
            },
    )
}

/// A key without a hyphen is its own identifier.
pub proof fn lemma_normalized_without_hyphen(key: Seq<char>)
    requires
        forall|i: int| 0 <= i < key.len() ==> key[i] != '-',
    ensures
        normalized(key) == key,
{
}

/// Normalizing an identifier a second time changes nothing.
pub proof fn lemma_normalized_idempotent(key: Seq<char>)
    ensures
        normalized(normalized(key)) == normalized(key),
{
}

/// No identifier holds a hyphen, and each has the length of its key.
pub proof fn lemma_normalized_has_no_hyphen(key: Seq<char>)
    ensures
        normalized(key).len() == key.len(),
        forall|i: int| 0 <= i < key.len() ==> normalized(key)[i] != '-',
{
}

/// The identifier for a manifest key.
pub fn normalize(key: &str) -> (name: String)
    ensures
        name@ == normalized(key@),
{
    let mut name = String::new();
    for c in rest: key.chars()
        invariant
            rest.seq() == key@,
            name@ == normalized(key@.take(rest.index() as int)),
    {
        name.push(
            if c == '-' {
                '_'
            } else {
                c
            },
        );
    }
    name
}

} // verus!
