//! Builders for the layout of a workspace. Every field but the lists must be
//! set before `build`.

use vstd::prelude::*;
use crate::path::{join, joined};

verus! {

#[derive(Debug)]
pub struct WorkspaceMeta {
    pub path: Option<String>,
    pub libraries: Vec<LibraryMeta>,
}

#[derive(Debug)]
pub struct LibraryMeta {
    pub name: Option<String>,
    pub lib_name: Option<String>,
    pub derive_name: Option<String>,
    pub lib_dir: Option<String>,
    pub derive_dir: Option<String>,
    pub traits: Vec<TraitMeta>,
}

#[derive(Debug)]
pub struct TraitMeta {
    pub name: Option<String>,
}

impl TraitMeta {
    pub fn new() -> (r: Self)
        ensures
            r.name is None,
    {
        TraitMeta { name: None }
    }

    pub fn name(&mut self, name: String) -> (r: &mut Self)
        ensures
            *r == (TraitMeta { name: Some(name) }),
            *final(self) == *final(r),
    {
        self.name = Some(name);
        self
    }

    pub open spec fn complete(&self) -> bool {
        self.name is Some
    }

    /// True of the trait that this builder makes.
    pub open spec fn builds(&self, made: crate::traitenum::cargo::meta::TraitMeta) -> bool {
        made.name == self.name->0
    }

    pub fn build(self) -> (r: crate::traitenum::cargo::meta::TraitMeta)
        requires
            self.complete(),
        ensures
            self.builds(r),
    {
        match self.name {
            Some(name) => crate::traitenum::cargo::meta::TraitMeta { name },
            None => crate::traitenum::cargo::meta::TraitMeta { name: String::new() },
        }
    }
}

impl LibraryMeta {
    pub fn new() -> (r: Self)
        ensures
            r.name is None,
            r.lib_name is None,
            r.derive_name is None,
            r.lib_dir is None,
            r.derive_dir is None,
            r.traits@.len() == 0,
    {
        LibraryMeta {
            name: None,
            lib_name: None,
            derive_name: None,
            lib_dir: None,
            derive_dir: None,
            traits: Vec::new(),
        }
    }

    pub fn name(&mut self, name: String) -> (r: &mut Self)
        ensures
            *r == (LibraryMeta { name: Some(name), ..*old(self) }),
            *final(self) == *final(r),
    {
        self.name = Some(name);
        self
    }

    pub fn lib_name(&mut self, lib_name: String) -> (r: &mut Self)
        ensures
            *r == (LibraryMeta { lib_name: Some(lib_name), ..*old(self) }),
            *final(self) == *final(r),
    {
        self.lib_name = Some(lib_name);
        self
    }

    pub fn derive_name(&mut self, derive_name: String) -> (r: &mut Self)
        ensures
            *r == (LibraryMeta { derive_name: Some(derive_name), ..*old(self) }),
            *final(self) == *final(r),
    {
        self.derive_name = Some(derive_name);
        self
    }

    pub fn lib_dir(&mut self, lib_dir: String) -> (r: &mut Self)
        ensures
            *r == (LibraryMeta { lib_dir: Some(lib_dir), ..*old(self) }),
            *final(self) == *final(r),
    {
        self.lib_dir = Some(lib_dir);
        self
    }

    pub fn derive_dir(&mut self, derive_dir: String) -> (r: &mut Self)
        ensures
            *r == (LibraryMeta { derive_dir: Some(derive_dir), ..*old(self) }),
            *final(self) == *final(r),
    {
        self.derive_dir = Some(derive_dir);
        self
    }

    /// Adds traits to those already named.
    pub fn traits(&mut self, traits: Vec<TraitMeta>) -> (r: &mut Self)
        ensures
            r.traits@ == old(self).traits@ + traits@,
            r.name == old(self).name,
            r.lib_name == old(self).lib_name,
            r.derive_name == old(self).derive_name,
            r.lib_dir == old(self).lib_dir,
            r.derive_dir == old(self).derive_dir,
            *final(self) == *final(r),
    {
        let mut traits = traits;
        self.traits.append(&mut traits);
        self
    }

    pub open spec fn complete(&self) -> bool {
        &&& self.name is Some
        &&& self.lib_name is Some
        &&& self.derive_name is Some
        &&& self.lib_dir is Some
        &&& self.derive_dir is Some
        &&& forall|i: int| 0 <= i < self.traits@.len() ==> (#[trigger] self.traits@[i]).complete()
    }

    /// True of the library that this builder makes.
    pub open spec fn builds(&self, made: crate::traitenum::cargo::meta::LibraryMeta) -> bool {
        &&& made.name == self.name->0
        &&& made.lib_name == self.lib_name->0
        &&& made.derive_name == self.derive_name->0
        &&& made.lib_dir == self.lib_dir->0
        &&& made.derive_dir == self.derive_dir->0
        &&& made.traits@.len() == self.traits@.len()
        &&& forall|i: int|
            0 <= i < self.traits@.len() ==> (#[trigger] self.traits@[i]).builds(made.traits@[i])
    }

    pub fn build(self) -> (r: crate::traitenum::cargo::meta::LibraryMeta)
        requires
            self.complete(),
        ensures
            self.builds(r),
    {
        let ghost all = self.traits@;
        let mut rest = self.traits;
        let mut traits: Vec<crate::traitenum::cargo::meta::TraitMeta> = Vec::new();
        while rest.len() > 0
            invariant
                traits@.len() + rest@.len() == all.len(),
                rest@ == all.skip(traits@.len() as int),
                forall|i: int| 0 <= i < all.len() ==> (#[trigger] all[i]).complete(),
                forall|i: int| 0 <= i < traits@.len() ==> (#[trigger] all[i]).builds(traits@[i]),
            decreases rest.len(),
        {
            let ghost done = traits@.len() as int;
            let next = rest.remove(0);
            assert(next == all[done]);
            assert(rest@ =~= all.skip(done + 1));
            traits.push(next.build());
        }
        match (self.name, self.lib_name, self.derive_name, self.lib_dir, self.derive_dir) {
            (Some(name), Some(lib_name), Some(derive_name), Some(lib_dir), Some(derive_dir)) => {
                crate::traitenum::cargo::meta::LibraryMeta {
                    name,
                    lib_name,
                    derive_name,
                    lib_dir,
                    derive_dir,
                    traits,
                }
            },
            _ => crate::traitenum::cargo::meta::LibraryMeta {
                name: String::new(),
                lib_name: String::new(),
                derive_name: String::new(),
                lib_dir: String::new(),
                derive_dir: String::new(),
                traits,
            },
        }
    }
}

impl WorkspaceMeta {
    pub fn new() -> (r: Self)
        ensures
            r.path is None,
            r.libraries@.len() == 0,
    {
        WorkspaceMeta { path: None, libraries: Vec::new() }
    }

    pub fn path(&mut self, path: String) -> (r: &mut Self)
        ensures
            *r == (WorkspaceMeta { path: Some(path), ..*old(self) }),
            *final(self) == *final(r),
    {
        self.path = Some(path);
        self
    }

    /// Adds libraries to those already named.
    pub fn libraries(&mut self, libraries: Vec<LibraryMeta>) -> (r: &mut Self)
        ensures
            r.libraries@ == old(self).libraries@ + libraries@,
            r.path == old(self).path,
            *final(self) == *final(r),
    {
        let mut libraries = libraries;
        self.libraries.append(&mut libraries);
        self
    }

    /// The directory of a library's `lib` package. Both the workspace's path
    /// and the library's directory must be set.
    pub fn get_lib_path(&self, library: &LibraryMeta) -> (r: String)
        requires
            self.path is Some,
            library.lib_dir is Some,
        ensures
            r@ == joined(self.path->0@, library.lib_dir->0@),
    {
        match (&self.path, &library.lib_dir) {
            (Some(path), Some(dir)) => join(path.as_str(), dir.as_str()),
            _ => String::new(),
        }
    }

    /// The directory of a library's `derive` package. Both the workspace's
    /// path and the library's directory must be set.
    pub fn get_derive_path(&self, library: &LibraryMeta) -> (r: String)
        requires
            self.path is Some,
            library.derive_dir is Some,
        ensures
            r@ == joined(self.path->0@, library.derive_dir->0@),
    {
        match (&self.path, &library.derive_dir) {
            (Some(path), Some(dir)) => join(path.as_str(), dir.as_str()),
            _ => String::new(),
        }
    }

    pub open spec fn complete(&self) -> bool {
        &&& self.path is Some
        &&& forall|i: int|
            0 <= i < self.libraries@.len() ==> (#[trigger] self.libraries@[i]).complete()
    }

    /// True of the workspace that this builder makes.
    pub open spec fn builds(&self, made: crate::traitenum::cargo::meta::WorkspaceMeta) -> bool {
        &&& made.path == self.path->0
        &&& made.libraries@.len() == self.libraries@.len()
        &&& forall|i: int|
            0 <= i < self.libraries@.len() ==> (#[trigger] self.libraries@[i]).builds(
                made.libraries@[i],
            )
    }

    pub fn build(self) -> (r: crate::traitenum::cargo::meta::WorkspaceMeta)
        requires
            self.complete(),
        ensures
            self.builds(r),
    {
        let ghost all = self.libraries@;
        let mut rest = self.libraries;
        let mut libraries: Vec<crate::traitenum::cargo::meta::LibraryMeta> = Vec::new();
        while rest.len() > 0
            invariant
                libraries@.len() + rest@.len() == all.len(),
                rest@ == all.skip(libraries@.len() as int),
                forall|i: int| 0 <= i < all.len() ==> (#[trigger] all[i]).complete(),
                forall|i: int|
                    0 <= i < libraries@.len() ==> (#[trigger] all[i]).builds(libraries@[i]),
            decreases rest.len(),
        {
            let ghost done = libraries@.len() as int;
            let next = rest.remove(0);
            assert(next == all[done]);
            assert(rest@ =~= all.skip(done + 1));
            libraries.push(next.build());
        }
        match self.path {
            Some(path) => crate::traitenum::cargo::meta::WorkspaceMeta { path, libraries },
            None => crate::traitenum::cargo::meta::WorkspaceMeta { path: String::new(), libraries },
        }
    }
}

} // verus!
