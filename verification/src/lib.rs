//! Find the name under which a crate goes in a `Cargo.toml`.
//!
//! A procedural macro that expands to paths into another crate has to know
//! what that crate is called where the macro is used: the user may have
//! renamed the dependency, or may depend on one of several crates that export
//! the same items. This library answers the question from the text of the
//! manifest.
//!
//! [`Manifest`] holds a parsed manifest. [`Manifest::find`] and
//! [`Manifest::find_package`] go through its dependency tables and describe
//! the first dependency that a predicate picks as a [`Package`];
//! [`Manifest::crate_package`] describes the crate that the manifest itself
//! declares; [`find_crate`] does a single search on a manifest text.
//!
//! By default `dependencies` and `dev-dependencies` are searched. The kind
//! of a [`Manifest`] changes that, see [`Dependencies`].
//!
//! What a search returns is stated in the contracts over the functions of
//! [`model`], on a mathematical reading of the manifest that [`document`]
//! gives; [`theory`] holds what is proved of every search.

pub mod dependencies;
pub mod document;
pub mod error;
pub mod manifest;
pub mod model;
pub mod package;
pub mod predicate;
pub mod search;
pub mod theory;

pub use crate::dependencies::Dependencies;
pub use crate::error::{Error, TomlError};
pub use crate::manifest::{find_crate, Manifest};
pub use crate::package::{normalize, Package};
