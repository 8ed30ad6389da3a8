//! The model of a group of tests inside a module.

use vstd::prelude::*;
use crate::testing::{
    build_fixture_dir, build_temp_dir, entry_views, find_imported, fixture_path, found,
    group_token, import_entry, temp_path, test_token, Testable,
};
use crate::testing::module::Module;
use crate::testing::namepath::{GroupNamepath, Namepath, NamepathTrait, NamepathView};
use crate::testing::test::TestBuilder;
use crate::text::text_of;

verus! {

/// A group of tests: its module, its namepath, and the directories that were
/// asked for when it was built.
#[derive(Debug, PartialEq, Eq)]
pub struct Group<'module> {
    pub module: &'module Module,
    pub namepath: Namepath,
    pub temp_dir: Option<String>,
    pub fixture_dir: Option<String>,
    pub imported_fixture_dirs: Option<Vec<(Namepath, String)>>,
}

impl<'module> Group<'module> {
    pub open spec fn namepath_view(&self) -> NamepathView {
        self.namepath@
    }

    /// What holds of every group that a builder made.
    pub open spec fn well_formed(&self) -> bool {
        self.namepath is Group
    }

    pub fn module(&self) -> (r: &Module)
        ensures
            r == self.module,
    {
        self.module
    }

    /// Starts a test that lies in this group.
    pub fn test(&self, name: &str) -> (r: TestBuilder<'_, '_>)
        requires
            test_token(name@),
        ensures
            r == TestBuilder::fresh(self.module, Some(self), r.name),
            r.name@ == name@,
    {
        TestBuilder::new(self.module, Some(self), name)
    }

    pub fn name(&self) -> (r: &str)
        requires
            self.well_formed(),
        ensures
            Some(r@) == self.namepath@.name,
    {
        match &self.namepath {
            Namepath::Group(namepath) => namepath.name(),
            _ => "",
        }
    }

    pub fn namepath(&self) -> (r: &Namepath)
        ensures
            r == &self.namepath,
    {
        &self.namepath
    }

    pub fn has_temp_dir(&self) -> (r: bool)
        ensures
            r == self.temp_dir is Some,
    {
        self.temp_dir.is_some()
    }

    pub fn has_fixture_dir(&self) -> (r: bool)
        ensures
            r == self.fixture_dir is Some,
    {
        self.fixture_dir.is_some()
    }

    /// The fixture directory imported for `namepath` by this group or, failing
    /// that, by its module.
    pub fn try_imported_fixture_dir(&self, namepath: &Namepath) -> (r: Option<&str>)
        ensures
            r is Some == self.imported_text(namepath@) is Some,
            r is Some ==> Some(r->0@) == self.imported_text(namepath@),
    {
        match find_imported(&self.imported_fixture_dirs, namepath) {
            Some(d) => Some(d),
            None => self.module.try_imported_fixture_dir(namepath),
        }
    }

    /// Ends the group: it forgets its temporary directory and hands it to the
    /// caller, who removes it with all that is in it.
    pub fn teardown(&mut self) -> (r: Option<String>)
        ensures
            r == old(self).temp_dir,
            *final(self) == (Group { temp_dir: None, ..*old(self) }),
    {
        self.temp_dir.take()
    }
}

impl<'module> Testable for Group<'module> {
    open spec fn fixture_text(&self) -> Option<Seq<char>> {
        text_of(self.fixture_dir)
    }

    open spec fn temp_text(&self) -> Option<Seq<char>> {
        text_of(self.temp_dir)
    }

    open spec fn imported_text(&self, namepath: NamepathView) -> Option<Seq<char>> {
        match found(entry_views(self.imported_fixture_dirs), namepath) {
            Some(d) => Some(d),
            None => self.module.imported_text(namepath),
        }
    }

    fn fixture_dir(&self) -> (r: &str) {
        match &self.fixture_dir {
            Some(d) => d.as_str(),
            None => "",
        }
    }

    fn imported_fixture_dir(&self, namepath: &Namepath) -> (r: &str) {
        match self.try_imported_fixture_dir(namepath) {
            Some(d) => d,
            None => "",
        }
    }

    fn temp_dir(&self) -> (r: &str) {
        match &self.temp_dir {
            Some(d) => d.as_str(),
            None => "",
        }
    }
}

/// Collects what a group is to be built with.
#[derive(Debug, PartialEq, Eq)]
pub struct GroupBuilder<'module> {
    pub is_static: bool,
    pub module: &'module Module,
    pub name: String,
    pub using_temp_dir: bool,
    pub inherit_temp_dir: bool,
    pub using_fixture_dir: bool,
    pub inherit_fixture_dir: bool,
    pub imported_fixture_dirs: Option<Vec<(Namepath, String)>>,
}

impl<'module> GroupBuilder<'module> {
    /// A builder on which nothing has been asked for yet.
    pub open spec fn fresh(module: &'module Module, name: String, is_static: bool) -> Self {
        GroupBuilder {
            is_static,
            module,
            name,
            using_temp_dir: false,
            inherit_temp_dir: false,
            using_fixture_dir: false,
            inherit_fixture_dir: false,
            imported_fixture_dirs: None,
        }
    }

    pub fn new(module: &'module Module, name: &str, is_static: bool) -> (r: Self)
        requires
            group_token(name@),
        ensures
            r == Self::fresh(module, r.name, is_static),
            r.name@ == name@,
    {
        GroupBuilder {
            is_static,
            module,
            name: String::from_str(name),
            using_temp_dir: false,
            inherit_temp_dir: false,
            using_fixture_dir: false,
            inherit_fixture_dir: false,
            imported_fixture_dirs: None,
        }
    }

    /// True when the module offers what the group was asked to take from it.
    pub open spec fn ready(&self) -> bool {
        &&& self.using_temp_dir ==> self.module.base_temp_dir is Some
        &&& !self.using_temp_dir && self.inherit_temp_dir ==> self.module.temp_dir is Some
        &&& !self.using_fixture_dir && self.inherit_fixture_dir ==> self.module.fixture_dir is Some
    }

    /// True of the group that this builder makes.
    pub open spec fn builds(&self, group: Group<'module>) -> bool {
        let namepath = GroupNamepath::made(self.module.namepath@, self.name@);
        &&& group.module == self.module
        &&& group.namepath is Group
        &&& group.namepath@ == namepath
        &&& text_of(group.temp_dir) == if self.using_temp_dir {
            Some(temp_path(text_of(self.module.base_temp_dir)->0, namepath.path))
        } else if self.inherit_temp_dir {
            text_of(self.module.temp_dir)
        } else {
            None
        }
        &&& text_of(group.fixture_dir) == if self.using_fixture_dir {
            Some(fixture_path(self.module.use_case, namepath.testing_path))
        } else if self.inherit_fixture_dir {
            text_of(self.module.fixture_dir)
        } else {
            None
        }
        &&& group.imported_fixture_dirs == self.imported_fixture_dirs
    }

    pub fn build(self) -> (r: Group<'module>)
        requires
            self.ready(),
        ensures
            self.builds(r),
    {
        let module = self.module;
        let namepath = Namepath::group(module, self.name);
        let temp_dir = if self.using_temp_dir {
            Some(build_temp_dir(&namepath, module.base_temp_dir()))
        } else if self.inherit_temp_dir {
            Some(String::from_str(module.temp_dir()))
        } else {
            None
        };
        let fixture_dir = if self.using_fixture_dir {
            Some(build_fixture_dir(&namepath, module.use_case))
        } else if self.inherit_fixture_dir {
            Some(String::from_str(module.fixture_dir()))
        } else {
            None
        };
        Group {
            module,
            namepath,
            temp_dir,
            fixture_dir,
            imported_fixture_dirs: self.imported_fixture_dirs,
        }
    }

    /// Gives the group a temporary directory of its own under that of its
    /// module, which must have one.
    pub fn using_temp_dir(self) -> (r: Self)
        requires
            !self.inherit_temp_dir,
            self.module.temp_dir is Some,
        ensures
            r == (GroupBuilder { using_temp_dir: true, ..self }),
    {
        GroupBuilder { using_temp_dir: true, ..self }
    }

    /// Gives the group the temporary directory of its module, which must have one.
    pub fn inherit_temp_dir(self) -> (r: Self)
        requires
            !self.using_temp_dir,
            self.module.temp_dir is Some,
        ensures
            r == (GroupBuilder { inherit_temp_dir: true, ..self }),
    {
        GroupBuilder { inherit_temp_dir: true, ..self }
    }

    pub fn using_fixture_dir(self) -> (r: Self)
        requires
            !self.inherit_fixture_dir,
        ensures
            r == (GroupBuilder { using_fixture_dir: true, ..self }),
    {
        GroupBuilder { using_fixture_dir: true, ..self }
    }

    /// Imports the fixture directory that belongs to another namepath.
    pub fn import_fixture_dir(self, namepath: &Namepath) -> (r: Self)
        ensures
            r == (GroupBuilder { imported_fixture_dirs: r.imported_fixture_dirs, ..self }),
            entry_views(r.imported_fixture_dirs) == entry_views(self.imported_fixture_dirs).push(
                (namepath@, fixture_path(self.module.use_case, namepath@.testing_path)),
            ),
    {
        let use_case = self.module.use_case;
        GroupBuilder {
            is_static: self.is_static,
            module: self.module,
            name: self.name,
            using_temp_dir: self.using_temp_dir,
            inherit_temp_dir: self.inherit_temp_dir,
            using_fixture_dir: self.using_fixture_dir,
            inherit_fixture_dir: self.inherit_fixture_dir,
            imported_fixture_dirs: import_entry(self.imported_fixture_dirs, namepath, use_case),
        }
    }

    pub fn inherit_fixture_dir(self) -> (r: Self)
        requires
            !self.using_fixture_dir,
        ensures
            r == (GroupBuilder { inherit_fixture_dir: true, ..self }),
    {
        GroupBuilder { inherit_fixture_dir: true, ..self }
    }
}

/// A builder of a group with the function that sets the group up.
pub struct GroupSetup<'module, F> {
    pub builder: GroupBuilder<'module>,
    pub setup_func: F,
}

impl<'module> GroupBuilder<'module> {
    /// Gives the group a function that is run on it once, when it is built.
    pub fn setup<F: FnOnce(&mut Group<'module>)>(self, func: F) -> (r: GroupSetup<'module, F>)
        ensures
            r.builder == self,
            r.setup_func == func,
    {
        GroupSetup { builder: self, setup_func: func }
    }
}

impl<'module, F: FnOnce(&mut Group<'module>)> GroupSetup<'module, F> {
    /// Builds the group and runs the setup function on it: what comes back is
    /// what the plain builder makes, after the function has run on it. The
    /// function must take any group.
    pub fn build(self) -> (r: Group<'module>)
        requires
            self.builder.ready(),
            forall|m: &mut Group<'module>| call_requires(self.setup_func, (m,)),
        ensures
            exists|built: &mut Group<'module>|
                self.builder.builds(*built) && *final(built) == r && #[trigger] call_ensures(
                    self.setup_func,
                    (built,),
                    (),
                ),
    {
        let mut group = self.builder.build();
        (self.setup_func)(&mut group);
        group
    }
}

impl<'module> Group<'module> {
    /// Ends the group with a function of the caller: the function is run on
    /// the group once, and then the group forgets its temporary directory and
    /// hands it to the caller, who removes it. The function must take any group.
    pub fn teardown_with<F: FnOnce(&mut Group<'module>)>(&mut self, func: F) -> (r: Option<String>)
        requires
            forall|m: &mut Group<'module>| call_requires(func, (m,)),
        ensures
            exists|run: &mut Group<'module>|
                *run == *old(self) && #[trigger] call_ensures(func, (run,), ())
                    && r == final(run).temp_dir && *final(self) == (Group { temp_dir: None, ..*final(run) }),
    {
        func(self);
        self.temp_dir.take()
    }
}

} // verus!
