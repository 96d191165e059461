//! The kinds of dependency tables, and which tables each kind names.

use vstd::prelude::*;

verus! {

/// The kind of dependencies to be searched.
#[derive(Debug, Clone, Copy, PartialEq, Eq, Structural)]
pub enum Dependencies {
    /// Search from `dependencies` and `dev-dependencies`.
    Default,
    /// Search from `dependencies`.
    Release,
    /// Search from `dev-dependencies`.
    Dev,
    /// Search from `build-dependencies`.
    Build,
    /// Search from `dependencies`, `dev-dependencies` and `build-dependencies`.
    All,
}

/// The characters of each name in a list of names.
pub open spec fn texts(names: Seq<&str>) -> Seq<Seq<char>> {
    Seq::new(names.len(), |i: int| names[i]@)
}

impl Dependencies {
    /// The names of the tables that a search of this kind goes through, in
    /// the order in which it goes through them.
    pub open spec fn tables(self) -> Seq<Seq<char>> {
        match self {
            Dependencies::Default => seq!["dependencies"@, "dev-dependencies"@],
            Dependencies::Release => seq!["dependencies"@],
            Dependencies::Dev => seq!["dev-dependencies"@],
            Dependencies::Build => seq!["build-dependencies"@],
            Dependencies::All => seq![
                "dependencies"@,
                "dev-dependencies"@,
                "build-dependencies"@,
            ],
        }
    }

    /// Every kind names at least one table, and only the three that a
    /// manifest has.
    pub proof fn lemma_tables(self)
        ensures
            0 < self.tables().len() <= 3,
            forall|i: int|
                0 <= i < self.tables().len() ==> {
                    let name = #[trigger] self.tables()[i];
                    name == "dependencies"@ || name == "dev-dependencies"@ || name
                        == "build-dependencies"@
                },
    {
    }

    /// The names of the tables to search, in priority order.
    pub fn as_slice(self) -> (names: &'static [&'static str])
        ensures
            texts(names@) == self.tables(),
    {
        match self {
            Dependencies::Default => &["dependencies", "dev-dependencies"],
            Dependencies::Release => &["dependencies"],
            Dependencies::Dev => &["dev-dependencies"],
            Dependencies::Build => &["build-dependencies"],
            Dependencies::All => &["dependencies", "dev-dependencies", "build-dependencies"],
        }
    }
}

impl Default for Dependencies {
    fn default() -> (kind: Self)
        ensures
            kind == Dependencies::Default,
    {
        Dependencies::Default
    }
}

} // verus!
