//! The layout of a workspace: its libraries, each a pair of packages (`lib`
//! with the traits, `derive` with their derive macros), and the traits of each.

use vstd::prelude::*;
use crate::path::{join, joined};

pub mod builder;

pub use crate::traitenum::cargo::manifest::build;

verus! {

#[derive(Debug)]
pub struct WorkspaceMeta {
    pub path: String,
    pub libraries: Vec<LibraryMeta>,
}

#[derive(Debug)]
pub struct LibraryMeta {
    pub name: String,
    pub lib_name: String,
    pub derive_name: String,
    pub lib_dir: String,
    pub derive_dir: String,
    pub traits: Vec<TraitMeta>,
}

#[derive(Debug)]
pub struct TraitMeta {
    pub name: String,
}

impl WorkspaceMeta {
    pub fn path(&self) -> (r: &str)
        ensures
            r@ == self.path@,
    {
        self.path.as_str()
    }

    pub fn libraries(&self) -> (r: &Vec<LibraryMeta>)
        ensures
            *r == self.libraries,
    {
        &self.libraries
    }

    /// The directory of a library's `lib` package.
    pub fn lib_path(&self, library: &LibraryMeta) -> (r: String)
        ensures
            r@ == joined(self.path@, library.lib_dir@),
    {
        join(self.path.as_str(), library.lib_dir())
    }

    /// The directory of a library's `derive` package.
    pub fn derive_path(&self, library: &LibraryMeta) -> (r: String)
        ensures
            r@ == joined(self.path@, library.derive_dir@),
    {
        join(self.path.as_str(), library.derive_dir())
    }
}

impl LibraryMeta {
    pub fn name(&self) -> (r: &str)
        ensures
            r@ == self.name@,
    {
        self.name.as_str()
    }

    pub fn lib_name(&self) -> (r: &str)
        ensures
            r@ == self.lib_name@,
    {
        self.lib_name.as_str()
    }

    pub fn derive_name(&self) -> (r: &str)
        ensures
            r@ == self.derive_name@,
    {
        self.derive_name.as_str()
    }

    pub fn lib_dir(&self) -> (r: &str)
        ensures
            r@ == self.lib_dir@,
    {
        self.lib_dir.as_str()
    }

    pub fn derive_dir(&self) -> (r: &str)
        ensures
            r@ == self.derive_dir@,
    {
        self.derive_dir.as_str()
    }

    pub fn traits(&self) -> (r: &Vec<TraitMeta>)
        ensures
            *r == self.traits,
    {
        &self.traits
    }
}

impl TraitMeta {
    pub fn name(&self) -> (r: &str)
        ensures
            r@ == self.name@,
    {
        self.name.as_str()
    }
}

} // verus!
