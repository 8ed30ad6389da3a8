//! The model of a single test.

use vstd::prelude::*;
use crate::testing::{
    build_fixture_dir, build_temp_dir, entry_views, find_imported, fixture_path, found,
    import_entry, temp_path, test_token, Testable,
};
use crate::testing::group::Group;
use crate::testing::module::Module;
use crate::testing::namepath::{Namepath, NamepathTrait, NamepathView, TestNamepath};
use crate::text::text_of;

verus! {

/// What a test lies in directly: its group if it has one, else its module.
#[derive(Debug, PartialEq, Eq)]
pub enum Parent<'module, 'group> {
    Module(&'module Module),
    Group(&'group Group<'module>),
}

impl<'module, 'group> Parent<'module, 'group> {
    pub fn is_module(&self) -> (r: bool)
        ensures
            r == (*self is Module),
    {
        match *self {
            Parent::Module(_) => true,
            _ => false,
        }
    }

    pub fn is_group(&self) -> (r: bool)
        ensures
            r == (*self is Group),
    {
        match *self {
            Parent::Group(_) => true,
            _ => false,
        }
    }

    pub fn namepath(&self) -> (r: &Namepath)
        ensures
            r == match *self {
                Parent::Module(module) => &module.namepath,
                Parent::Group(group) => &group.namepath,
            },
    {
        match *self {
            Parent::Module(module) => module.namepath(),
            Parent::Group(group) => group.namepath(),
        }
    }
}

impl<'module, 'group> Testable for Parent<'module, 'group> {
    open spec fn fixture_text(&self) -> Option<Seq<char>> {
        match *self {
            Parent::Module(module) => module.fixture_text(),
            Parent::Group(group) => group.fixture_text(),
        }
    }

    open spec fn temp_text(&self) -> Option<Seq<char>> {
        match *self {
            Parent::Module(module) => module.temp_text(),
            Parent::Group(group) => group.temp_text(),
        }
    }

    open spec fn imported_text(&self, namepath: NamepathView) -> Option<Seq<char>> {
        match *self {
            Parent::Module(module) => module.imported_text(namepath),
            Parent::Group(group) => group.imported_text(namepath),
        }
    }

    fn fixture_dir(&self) -> (r: &str) {
        match *self {
            Parent::Module(module) => module.fixture_dir(),
            Parent::Group(group) => group.fixture_dir(),
        }
    }

    fn imported_fixture_dir(&self, namepath: &Namepath) -> (r: &str) {
        match *self {
            Parent::Module(module) => module.imported_fixture_dir(namepath),
            Parent::Group(group) => group.imported_fixture_dir(namepath),
        }
    }

    fn temp_dir(&self) -> (r: &str) {
        match *self {
            Parent::Module(module) => module.temp_dir(),
            Parent::Group(group) => group.temp_dir(),
        }
    }
}

/// A single test: its module, perhaps its group, its namepath, and the
/// directories that were asked for when it was built.
#[derive(Debug, PartialEq, Eq)]
pub struct Test<'module, 'group> {
    pub module: &'module Module,
    pub namepath: Namepath,
    pub group: Option<&'group Group<'module>>,
    pub temp_dir: Option<String>,
    pub fixture_dir: Option<String>,
    pub imported_fixture_dirs: Option<Vec<(Namepath, String)>>,
}

impl<'module, 'group> Test<'module, 'group> {
    /// What holds of every test that a builder made.
    pub open spec fn well_formed(&self) -> bool {
        self.namepath is Test
    }

    /// The whole namepath of the test, module and group included.
    pub fn namepath(&self) -> (r: &Namepath)
        ensures
            r == &self.namepath,
    {
        &self.namepath
    }

    /// The name of the test.
    pub fn name(&self) -> (r: &str)
        requires
            self.well_formed(),
        ensures
            Some(r@) == self.namepath@.name,
    {
        match &self.namepath {
            Namepath::Test(namepath) => namepath.name(),
            _ => "",
        }
    }

    /// The module of the test.
    pub fn module(&self) -> (r: &'module Module)
        ensures
            r == self.module,
    {
        self.module
    }

    /// The group of the test, if it lies in one.
    pub fn group(&self) -> (r: Option<&'group Group<'module>>)
        ensures
            r == self.group,
    {
        self.group
    }

    /// What the test lies in directly.
    pub fn parent(&self) -> (r: Parent<'module, 'group>)
        ensures
            r == match self.group {
                Some(group) => Parent::Group(group),
                None => Parent::Module(self.module),
            },
    {
        match self.group {
            Some(group) => Parent::Group(group),
            None => Parent::Module(self.module),
        }
    }

    /// The fixture directory imported for `namepath` by this test or, failing
    /// that, by what it lies in.
    pub fn try_imported_fixture_dir(&self, namepath: &Namepath) -> (r: Option<&str>)
        ensures
            r is Some == self.imported_text(namepath@) is Some,
            r is Some ==> Some(r->0@) == self.imported_text(namepath@),
    {
        match find_imported(&self.imported_fixture_dirs, namepath) {
            Some(d) => Some(d),
            None => match self.group {
                Some(group) => group.try_imported_fixture_dir(namepath),
                None => self.module.try_imported_fixture_dir(namepath),
            },
        }
    }

    /// Ends the test: it forgets its temporary directory and hands it to the
    /// caller, who removes it with all that is in it.
    pub fn teardown(&mut self) -> (r: Option<String>)
        ensures
            r == old(self).temp_dir,
            *final(self) == (Test { temp_dir: None, ..*old(self) }),
    {
        self.temp_dir.take()
    }
}

impl<'module, 'group> Testable for Test<'module, 'group> {
    open spec fn fixture_text(&self) -> Option<Seq<char>> {
        text_of(self.fixture_dir)
    }

    open spec fn temp_text(&self) -> Option<Seq<char>> {
        text_of(self.temp_dir)
    }

    open spec fn imported_text(&self, namepath: NamepathView) -> Option<Seq<char>> {
        match found(entry_views(self.imported_fixture_dirs), namepath) {
            Some(d) => Some(d),
            None => match self.group {
                Some(group) => group.imported_text(namepath),
                None => self.module.imported_text(namepath),
            },
        }
    }

    fn fixture_dir(&self) -> (r: &str) {
        match &self.fixture_dir {
            Some(d) => d.as_str(),
            None => "",
        }
    }

    fn imported_fixture_dir(&self, namepath: &Namepath) -> (r: &str) {
        match self.try_imported_fixture_dir(namepath) {
            Some(d) => d,
            None => "",
        }
    }

    fn temp_dir(&self) -> (r: &str) {
        match &self.temp_dir {
            Some(d) => d.as_str(),
            None => "",
        }
    }
}

/// Collects what a test is to be built with.
#[derive(Debug, PartialEq, Eq)]
pub struct TestBuilder<'module, 'group> {
    pub name: String,
    pub module: &'module Module,
    pub group: Option<&'group Group<'module>>,
    pub using_temp_dir: bool,
    pub inherit_temp_dir: bool,
    pub using_fixture_dir: bool,
    pub inherit_fixture_dir: bool,
    pub imported_fixture_dirs: Option<Vec<(Namepath, String)>>,
}

impl<'module, 'group> TestBuilder<'module, 'group> {
    /// A builder on which nothing has been asked for yet.
    pub open spec fn fresh(
        module: &'module Module,
        group: Option<&'group Group<'module>>,
        name: String,
    ) -> Self {
        TestBuilder {
            name,
            module,
            group,
            using_temp_dir: false,
            inherit_temp_dir: false,
            using_fixture_dir: false,
            inherit_fixture_dir: false,
            imported_fixture_dirs: None,
        }
    }

    pub fn new(module: &'module Module, group: Option<&'group Group<'module>>, name: &str) -> (r:
        Self)
        requires
            test_token(name@),
        ensures
            r == Self::fresh(module, group, r.name),
            r.name@ == name@,
    {
        TestBuilder {
            name: String::from_str(name),
            module,
            group,
            using_temp_dir: false,
            inherit_temp_dir: false,
            using_fixture_dir: false,
            inherit_fixture_dir: false,
            imported_fixture_dirs: None,
        }
    }

    /// The temporary directory of what the test lies in.
    pub open spec fn parent_temp(&self) -> Option<Seq<char>> {
        match self.group {
            Some(group) => text_of(group.temp_dir),
            None => text_of(self.module.temp_dir),
        }
    }

    /// The fixture directory of what the test lies in.
    pub open spec fn parent_fixture(&self) -> Option<Seq<char>> {
        match self.group {
            Some(group) => text_of(group.fixture_dir),
            None => text_of(self.module.fixture_dir),
        }
    }

    /// True when module and group are sound and offer what the test was asked
    /// to take from them.
    pub open spec fn ready(&self) -> bool {
        &&& self.group is Some ==> self.group->0.well_formed()
        &&& self.using_temp_dir ==> self.module.base_temp_dir is Some
        &&& !self.using_temp_dir && self.inherit_temp_dir ==> self.parent_temp() is Some
        &&& !self.using_fixture_dir && self.inherit_fixture_dir ==> self.parent_fixture() is Some
    }

    /// True of the test that this builder makes.
    pub open spec fn builds(&self, test: Test<'module, 'group>) -> bool {
        let namepath = TestNamepath::made(
            self.module.namepath@,
            match self.group {
                Some(g) => g.namepath@.name,
                None => None,
            },
            self.name@,
        );
        &&& test.module == self.module
        &&& test.group == self.group
        &&& test.namepath is Test
        &&& test.namepath@ == namepath
        &&& text_of(test.temp_dir) == if self.using_temp_dir {
            Some(temp_path(text_of(self.module.base_temp_dir)->0, namepath.path))
        } else if self.inherit_temp_dir {
            self.parent_temp()
        } else {
            None
        }
        &&& text_of(test.fixture_dir) == if self.using_fixture_dir {
            Some(fixture_path(self.module.use_case, namepath.testing_path))
        } else if self.inherit_fixture_dir {
            self.parent_fixture()
        } else {
            None
        }
        &&& test.imported_fixture_dirs == self.imported_fixture_dirs
    }

    /// Builds the test.
    pub fn build(self) -> (r: Test<'module, 'group>)
        requires
            self.ready(),
        ensures
            self.builds(r),
    {
        let module = self.module;
        let group = self.group;
        let namepath = Namepath::test(module, group, self.name);
        let temp_dir = if self.using_temp_dir {
            Some(build_temp_dir(&namepath, module.base_temp_dir()))
        } else if self.inherit_temp_dir {
            Some(
                match group {
                    Some(group) => String::from_str(group.temp_dir()),
                    None => String::from_str(module.temp_dir()),
                },
            )
        } else {
            None
        };
        let fixture_dir = if self.using_fixture_dir {
            Some(build_fixture_dir(&namepath, module.use_case))
        } else if self.inherit_fixture_dir {
            Some(
                match group {
                    Some(group) => String::from_str(group.fixture_dir()),
                    None => String::from_str(module.fixture_dir()),
                },
            )
        } else {
            None
        };
        Test {
            module,
            namepath,
            group,
            temp_dir,
            fixture_dir,
            imported_fixture_dirs: self.imported_fixture_dirs,
        }
    }

    /// Gives the test a fixture directory of its own, named after it, under
    /// that of what it lies in.
    pub fn using_fixture_dir(self) -> (r: Self)
        requires
            !self.inherit_fixture_dir,
        ensures
            r == (TestBuilder { using_fixture_dir: true, ..self }),
    {
        TestBuilder { using_fixture_dir: true, ..self }
    }

    /// Imports the fixture directory that belongs to another namepath.
    pub fn import_fixture_dir(self, namepath: &Namepath) -> (r: Self)
        ensures
            r == (TestBuilder { imported_fixture_dirs: r.imported_fixture_dirs, ..self }),
            entry_views(r.imported_fixture_dirs) == entry_views(self.imported_fixture_dirs).push(
                (namepath@, fixture_path(self.module.use_case, namepath@.testing_path)),
            ),
    {
        let use_case = self.module.use_case;
        TestBuilder {
            name: self.name,
            module: self.module,
            group: self.group,
            using_temp_dir: self.using_temp_dir,
            inherit_temp_dir: self.inherit_temp_dir,
            using_fixture_dir: self.using_fixture_dir,
            inherit_fixture_dir: self.inherit_fixture_dir,
            imported_fixture_dirs: import_entry(self.imported_fixture_dirs, namepath, use_case),
        }
    }

    /// Gives the test a temporary directory of its own, named after it. Its
    /// module must use one, and so must its group if it has one.
    pub fn using_temp_dir(self) -> (r: Self)
        requires
            !self.inherit_temp_dir,
            self.module.temp_dir is Some,
            self.group is Some ==> self.group->0.temp_dir is Some,
        ensures
            r == (TestBuilder { using_temp_dir: true, ..self }),
    {
        TestBuilder { using_temp_dir: true, ..self }
    }

    /// Gives the test the temporary directory of what it lies in. Its module
    /// must use one, and so must its group if it has one.
    pub fn inherit_temp_dir(self) -> (r: Self)
        requires
            !self.using_temp_dir,
            self.module.temp_dir is Some,
            self.group is Some ==> self.group->0.temp_dir is Some,
        ensures
            r == (TestBuilder { inherit_temp_dir: true, ..self }),
    {
        TestBuilder { inherit_temp_dir: true, ..self }
    }

    /// Gives the test the fixture directory of what it lies in.
    pub fn inherit_fixture_dir(self) -> (r: Self)
        requires
            !self.using_fixture_dir,
        ensures
            r == (TestBuilder { inherit_fixture_dir: true, ..self }),
    {
        TestBuilder { inherit_fixture_dir: true, ..self }
    }
}

/// A builder of a test with the function that sets the test up.
pub struct TestSetup<'module, 'group, F> {
    pub builder: TestBuilder<'module, 'group>,
    pub setup_func: F,
}

impl<'module, 'group> TestBuilder<'module, 'group> {
    /// Gives the test a function that is run on it once, when it is built.
    pub fn setup<F: FnOnce(&mut Test<'module, 'group>)>(self, func: F) -> (r: TestSetup<'module, 'group, F>)
        ensures
            r.builder == self,
            r.setup_func == func,
    {
        TestSetup { builder: self, setup_func: func }
    }
}

impl<'module, 'group, F: FnOnce(&mut Test<'module, 'group>)> TestSetup<'module, 'group, F> {
    /// Builds the test and runs the setup function on it: what comes back is
    /// what the plain builder makes, after the function has run on it. The
    /// function must take any test.
    pub fn build(self) -> (r: Test<'module, 'group>)
        requires
            self.builder.ready(),
            forall|m: &mut Test<'module, 'group>| call_requires(self.setup_func, (m,)),
        ensures
            exists|built: &mut Test<'module, 'group>|
                self.builder.builds(*built) && *final(built) == r && #[trigger] call_ensures(
                    self.setup_func,
                    (built,),
                    (),
                ),
    {
        let mut test = self.builder.build();
        (self.setup_func)(&mut test);
        test
    }
}

impl<'module, 'group> Test<'module, 'group> {
    /// Ends the test with a function of the caller: the function is run on
    /// the test once, and then the test forgets its temporary directory and
    /// hands it to the caller, who removes it. The function must take any test.
    pub fn teardown_with<F: FnOnce(&mut Test<'module, 'group>)>(&mut self, func: F) -> (r: Option<String>)
        requires
            forall|m: &mut Test<'module, 'group>| call_requires(func, (m,)),
        ensures
            exists|run: &mut Test<'module, 'group>|
                *run == *old(self) && #[trigger] call_ensures(func, (run,), ())
                    && r == final(run).temp_dir && *final(self) == (Test { temp_dir: None, ..*final(run) }),
    {
        func(self);
        self.temp_dir.take()
    }
}

} // verus!
