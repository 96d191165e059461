//! The question that a search puts to each dependency: is this the package?

use crate::model::{answers_of, name_answers_of, Answers};
use vstd::prelude::*;

verus! {

/// A test on the name of a package and its version requirement.
///
/// A search is written against this trait, so that it serves predicates of
/// one argument and of two alike: [`ByName`] and [`ByNameAndVersion`] carry
/// a closure of either form.
pub trait Predicate: Sized {
    /// What the test may say of a name and a version requirement.
    spec fn answers(self) -> Answers;

    /// The test may be put to every name and every version requirement.
    spec fn ready(self) -> bool;

    /// Puts the test to a name and a version requirement. Being asked does
    /// not change what the test may say.
    fn ask(&mut self, name: &str, version: &str) -> (answer: bool)
        requires
            old(self).ready(),
        ensures
            final(self).ready(),
            final(self).answers() == old(self).answers(),
            old(self).answers()(name@, version@, answer),
    ;
}

/// A predicate on the name alone; the version requirement is not looked at.
pub struct ByName<F>(pub F);

/// A predicate on the name and the version requirement.
pub struct ByNameAndVersion<F>(pub F);

impl<F: FnMut(&str) -> bool> Predicate for ByName<F> {
    open spec fn answers(self) -> Answers {
        name_answers_of(self.0)
    }

    open spec fn ready(self) -> bool {
        forall|n: &str| call_requires(self.0, (n,))
    }

    fn ask(&mut self, name: &str, _version: &str) -> (answer: bool) {
        (self.0)(name)
    }
}

impl<F: FnMut(&str, &str) -> bool> Predicate for ByNameAndVersion<F> {
    open spec fn answers(self) -> Answers {
        answers_of(self.0)
    }

    open spec fn ready(self) -> bool {
        forall|n: &str, v: &str| call_requires(self.0, (n, v))
    }

    fn ask(&mut self, name: &str, version: &str) -> (answer: bool) {
        (self.0)(name, version)
    }
}

} // verus!
