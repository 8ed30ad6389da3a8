//! The model of a module under test.

use vstd::prelude::*;
use crate::path;
use crate::testing::{
    build_fixture_dir, build_temp_dir, entry_views, find_imported, fixture_path, found,
    group_token, import_entry, temp_path, test_token, Testable, UseCase,
};
use crate::testing::group::GroupBuilder;
use crate::testing::namepath::{
    ModuleNamepath, Namepath, NamepathTrait, NamepathView, squashed, testing_path_of,
};
use crate::testing::test::TestBuilder;
use crate::text::{push_char, text_of};

verus! {

/// How often the caller may try to create a directory with a random name
/// before it gives up.
pub const MAX_RAND_DIR_RETRIES: u32 = 64;

/// How many random characters close the name of a base temporary directory.
pub const MAX_RAND_DIR_CHARS: usize = 8;

/// Where temporary directories go unless a builder is told otherwise.
pub open spec fn default_base_temp_dir() -> Seq<char> {
    "/tmp"@
}

/// True of the ASCII letters and digits.
pub open spec fn alphanumeric(c: char) -> bool {
    ('a' <= c && c <= 'z') || ('A' <= c && c <= 'Z') || ('0' <= c && c <= '9')
}

/// True of names like `prefix.Ab3xY9qZ`: the prefix, a dot, and eight random
/// letters or digits.
pub open spec fn random_named(prefix: Seq<char>, name: Seq<char>) -> bool {
    exists|suffix: Seq<char>|
        #![trigger prefix + seq!['.'] + suffix]
        suffix.len() == MAX_RAND_DIR_CHARS && (forall|i: int|
            0 <= i < suffix.len() ==> alphanumeric(#[trigger] suffix[i])) && name == prefix
            + seq!['.'] + suffix
}

/// Draws one character with `Rng::sample` of the `rand` crate from its
/// `Alphanumeric` distribution, on the generator of the current thread.
/// Trusted: the character is an ASCII letter or digit. Which one is chance.
#[verifier::external_body]
fn random_alphanumeric() -> (c: char)
    ensures
        alphanumeric(c),
{
    rand::Rng::sample(&mut rand::thread_rng(), rand::distributions::Alphanumeric) as char
}

/// A name for a fresh directory: `prefix`, a dot, and random letters and digits.
pub fn random_name(prefix: &str) -> (r: String)
    ensures
        random_named(prefix@, r@),
{
    let mut name = String::from_str(prefix);
    push_char(&mut name, '.');
    let ghost mut suffix: Seq<char> = Seq::empty();
    let mut i: usize = 0;
    assert(name@ =~= prefix@ + seq!['.'] + suffix);
    while i < MAX_RAND_DIR_CHARS
        invariant
            0 <= i <= MAX_RAND_DIR_CHARS,
            suffix.len() == i,
            forall|j: int| 0 <= j < suffix.len() ==> alphanumeric(#[trigger] suffix[j]),
            name@ == prefix@ + seq!['.'] + suffix,
        decreases MAX_RAND_DIR_CHARS - i,
    {
        let c = random_alphanumeric();
        push_char(&mut name, c);
        proof {
            suffix = suffix.push(c);
        }
        assert(name@ =~= prefix@ + seq!['.'] + suffix);
        i += 1;
    }
    name
}

/// Whether the caller, after `attempts` failed tries, may try another name.
pub fn may_retry(attempts: u32) -> (r: bool)
    ensures
        r == (attempts < MAX_RAND_DIR_RETRIES),
{
    attempts < MAX_RAND_DIR_RETRIES
}

/// A module under test: its namepath, its use case, and the directories that
/// were asked for when it was built.
#[derive(Debug, PartialEq, Eq)]
pub struct Module {
    pub namepath: Namepath,
    pub use_case: UseCase,
    pub base_temp_dir: Option<String>,
    pub temp_dir: Option<String>,
    pub fixture_dir: Option<String>,
    pub imported_fixture_dirs: Option<Vec<(Namepath, String)>>,
}

impl Module {
    pub open spec fn namepath_view(&self) -> NamepathView {
        self.namepath@
    }

    pub fn namepath(&self) -> (r: &Namepath)
        ensures
            r == &self.namepath,
    {
        &self.namepath
    }

    pub fn use_case(&self) -> (r: &UseCase)
        ensures
            *r == self.use_case,
    {
        &self.use_case
    }

    /// The directory that holds the module's temporary directory. The module
    /// must have been built to use one.
    pub fn base_temp_dir(&self) -> (r: &str)
        requires
            self.base_temp_dir is Some,
        ensures
            Some(r@) == text_of(self.base_temp_dir),
    {
        match &self.base_temp_dir {
            Some(d) => d.as_str(),
            None => "",
        }
    }

    pub fn has_temp_dir(&self) -> (r: bool)
        ensures
            r == (self.temp_dir is Some && self.base_temp_dir is Some),
    {
        self.temp_dir.is_some() && self.base_temp_dir.is_some()
    }

    pub fn has_fixture_dir(&self) -> (r: bool)
        ensures
            r == self.fixture_dir is Some,
    {
        self.fixture_dir.is_some()
    }

    /// The fixture directory imported for `namepath`, if one was.
    pub fn try_imported_fixture_dir(&self, namepath: &Namepath) -> (r: Option<&str>)
        ensures
            r is Some == self.imported_text(namepath@) is Some,
            r is Some ==> Some(r->0@) == self.imported_text(namepath@),
    {
        find_imported(&self.imported_fixture_dirs, namepath)
    }

    /// Starts a group of this module that lives as long as the process.
    pub fn group(&self, name: &str) -> (r: GroupBuilder<'_>)
        requires
            group_token(name@),
        ensures
            r == GroupBuilder::fresh(self, r.name, true),
            r.name@ == name@,
    {
        GroupBuilder::new(self, name, true)
    }

    /// Starts a group of this module that ends with its scope.
    pub fn local_group(&self, name: &str) -> (r: GroupBuilder<'_>)
        requires
            group_token(name@),
        ensures
            r == GroupBuilder::fresh(self, r.name, false),
            r.name@ == name@,
    {
        GroupBuilder::new(self, name, false)
    }

    /// Starts a test that lies directly in this module.
    pub fn test(&self, name: &str) -> (r: TestBuilder<'_, '_>)
        requires
            test_token(name@),
        ensures
            r == TestBuilder::fresh(self, None, r.name),
            r.name@ == name@,
    {
        TestBuilder::new(self, None, name)
    }

    /// Ends the module: it forgets its base temporary directory and hands it
    /// to the caller, who removes it with all that is in it.
    pub fn teardown(&mut self) -> (r: Option<String>)
        ensures
            r == old(self).base_temp_dir,
            *final(self) == (Module { base_temp_dir: None, ..*old(self) }),
    {
        self.base_temp_dir.take()
    }
}

impl Testable for Module {
    open spec fn fixture_text(&self) -> Option<Seq<char>> {
        text_of(self.fixture_dir)
    }

    open spec fn temp_text(&self) -> Option<Seq<char>> {
        text_of(self.temp_dir)
    }

    open spec fn imported_text(&self, namepath: NamepathView) -> Option<Seq<char>> {
        found(entry_views(self.imported_fixture_dirs), namepath)
    }

    fn fixture_dir(&self) -> (r: &str) {
        match &self.fixture_dir {
            Some(d) => d.as_str(),
            None => "",
        }
    }

    fn imported_fixture_dir(&self, namepath: &Namepath) -> (r: &str) {
        match find_imported(&self.imported_fixture_dirs, namepath) {
            Some(d) => d,
            None => "",
        }
    }

    fn temp_dir(&self) -> (r: &str) {
        match &self.temp_dir {
            Some(d) => d.as_str(),
            None => "",
        }
    }
}

/// Collects what a module is to be built with.
#[derive(Debug, PartialEq, Eq)]
pub struct ModuleBuilder {
    pub use_case: UseCase,
    pub mod_path: String,
    pub base_temp_dir: String,
    pub using_temp_dir: bool,
    pub using_fixture_dir: bool,
    pub imported_fixture_dirs: Option<Vec<(Namepath, String)>>,
    pub is_static: bool,
}

impl ModuleBuilder {
    /// A builder on which nothing has been asked for yet.
    pub open spec fn fresh(mod_path: String, base_temp_dir: String, use_case: UseCase) -> Self {
        ModuleBuilder {
            use_case,
            mod_path,
            base_temp_dir,
            using_temp_dir: false,
            using_fixture_dir: false,
            imported_fixture_dirs: None,
            is_static: true,
        }
    }

    pub fn new(mod_path: &str, use_case: UseCase) -> (r: Self)
        ensures
            r == Self::fresh(r.mod_path, r.base_temp_dir, use_case),
            r.mod_path@ == mod_path@,
            r.base_temp_dir@ == default_base_temp_dir(),
    {
        ModuleBuilder {
            use_case,
            mod_path: String::from_str(mod_path),
            base_temp_dir: String::from_str("/tmp"),
            using_temp_dir: false,
            using_fixture_dir: false,
            imported_fixture_dirs: None,
            is_static: true,
        }
    }

    /// True when the module path has a testing path, so that the module can
    /// be built.
    pub open spec fn buildable(&self) -> bool {
        testing_path_of(self.use_case, self.mod_path@) is Some
    }

    /// True of the module that this builder makes when `temp_name` is the name
    /// of its base temporary directory.
    pub open spec fn builds(&self, temp_name: Seq<char>, module: Module) -> bool {
        let namepath = ModuleNamepath::made(
            self.mod_path@,
            testing_path_of(self.use_case, self.mod_path@)->0,
        );
        let base = path::joined(self.base_temp_dir@, temp_name);
        &&& module.namepath is Module
        &&& module.namepath@ == namepath
        &&& module.use_case == self.use_case
        &&& text_of(module.base_temp_dir) == if self.using_temp_dir {
            Some(base)
        } else {
            None
        }
        &&& text_of(module.temp_dir) == if self.using_temp_dir {
            Some(temp_path(base, namepath.path))
        } else {
            None
        }
        &&& text_of(module.fixture_dir) == if self.using_fixture_dir {
            Some(fixture_path(self.use_case, namepath.testing_path))
        } else {
            None
        }
        &&& module.imported_fixture_dirs == self.imported_fixture_dirs
    }

    /// Builds the module with a base temporary directory of the given name.
    pub fn build_named(self, temp_name: &str) -> (r: Module)
        requires
            self.buildable(),
        ensures
            self.builds(temp_name@, r),
    {
        let use_case = self.use_case;
        let namepath = Namepath::module(use_case, self.mod_path);
        let (base_temp_dir, temp_dir) = if self.using_temp_dir {
            let base = path::join(self.base_temp_dir.as_str(), temp_name);
            let temp = build_temp_dir(&namepath, base.as_str());
            (Some(base), Some(temp))
        } else {
            (None, None)
        };
        let fixture_dir = if self.using_fixture_dir {
            Some(build_fixture_dir(&namepath, use_case))
        } else {
            None
        };
        Module {
            namepath,
            use_case,
            base_temp_dir,
            temp_dir,
            fixture_dir,
            imported_fixture_dirs: self.imported_fixture_dirs,
        }
    }

    /// Builds the module. Its base temporary directory is named after the
    /// squashed module path, with random characters at the end.
    pub fn build(self) -> (r: Module)
        requires
            self.buildable(),
        ensures
            exists|temp_name: Seq<char>|
                random_named(squashed(self.mod_path@), temp_name) && #[trigger] self.builds(
                    temp_name,
                    r,
                ),
    {
        let prefix = crate::testing::namepath::squash(self.mod_path.as_str());
        let temp_name = random_name(prefix.as_str());
        let ghost builder = self;
        let r = self.build_named(temp_name.as_str());
        assert(builder.builds(temp_name@, r));
        r
    }

    /// Builds the module where its path has a testing path, and returns
    /// `None` where it has none.
    pub fn try_build(self) -> (r: Option<Module>)
        ensures
            r is Some == self.buildable(),
            r is Some ==> exists|temp_name: Seq<char>|
                random_named(squashed(self.mod_path@), temp_name) && #[trigger] self.builds(
                    temp_name,
                    r->0,
                ),
    {
        match crate::testing::namepath::make_testing_path(self.use_case, self.mod_path.as_str()) {
            Some(_) => {
                let ghost builder = self;
                let module = self.build();
                let ghost temp_name = choose|temp_name: Seq<char>|
                    random_named(squashed(builder.mod_path@), temp_name)
                        && #[trigger] builder.builds(temp_name, module);
                let r = Some(module);
                assert(random_named(squashed(builder.mod_path@), temp_name) && builder.builds(
                    temp_name,
                    r->0,
                ));
                r
            },
            None => None,
        }
    }

    /// Sets the directory under which the module's base temporary directory is made.
    pub fn base_temp_dir(self, dir: &str) -> (r: Self)
        ensures
            r == (ModuleBuilder { base_temp_dir: r.base_temp_dir, ..self }),
            r.base_temp_dir@ == dir@,
    {
        ModuleBuilder { base_temp_dir: String::from_str(dir), ..self }
    }

    pub fn using_fixture_dir(self) -> (r: Self)
        ensures
            r == (ModuleBuilder { using_fixture_dir: true, ..self }),
    {
        ModuleBuilder { using_fixture_dir: true, ..self }
    }

    /// Imports the fixture directory that belongs to another namepath.
    pub fn import_fixture_dir(self, namepath: &Namepath) -> (r: Self)
        ensures
            r == (ModuleBuilder { imported_fixture_dirs: r.imported_fixture_dirs, ..self }),
            entry_views(r.imported_fixture_dirs) == entry_views(self.imported_fixture_dirs).push(
                (namepath@, fixture_path(self.use_case, namepath@.testing_path)),
            ),
    {
        let use_case = self.use_case;
        ModuleBuilder {
            use_case: self.use_case,
            mod_path: self.mod_path,
            base_temp_dir: self.base_temp_dir,
            using_temp_dir: self.using_temp_dir,
            using_fixture_dir: self.using_fixture_dir,
            imported_fixture_dirs: import_entry(self.imported_fixture_dirs, namepath, use_case),
            is_static: self.is_static,
        }
    }

    pub fn using_temp_dir(self) -> (r: Self)
        ensures
            r == (ModuleBuilder { using_temp_dir: true, ..self }),
    {
        ModuleBuilder { using_temp_dir: true, ..self }
    }

    /// Makes the module one that ends with its scope.
    pub fn nonstatic(self) -> (r: Self)
        ensures
            r == (ModuleBuilder { is_static: false, ..self }),
    {
        ModuleBuilder { is_static: false, ..self }
    }
}

/// A builder of a module with the function that sets the module up.
pub struct ModuleSetup<F> {
    pub builder: ModuleBuilder,
    pub setup_func: F,
}

impl ModuleBuilder {
    /// Gives the module a function that is run on it once, when it is built.
    pub fn setup<F: FnOnce(&mut Module)>(self, func: F) -> (r: ModuleSetup<F>)
        ensures
            r.builder == self,
            r.setup_func == func,
    {
        ModuleSetup { builder: self, setup_func: func }
    }
}

impl<F: FnOnce(&mut Module)> ModuleSetup<F> {
    /// Builds the module with a base temporary directory of the given name,
    /// and runs the setup function on it: what comes back is what the plain
    /// builder makes, after the function has run on it. The function must take
    /// any module.
    pub fn build_named(self, temp_name: &str) -> (r: Module)
        requires
            self.builder.buildable(),
            forall|m: &mut Module| call_requires(self.setup_func, (m,)),
        ensures
            exists|built: &mut Module|
                self.builder.builds(temp_name@, *built) && *final(built) == r
                    && #[trigger] call_ensures(self.setup_func, (built,), ()),
    {
        let mut module = self.builder.build_named(temp_name);
        (self.setup_func)(&mut module);
        module
    }

    /// Builds the module and runs the setup function on it. The base
    /// temporary directory is named as the plain builder names it.
    pub fn build(self) -> (r: Module)
        requires
            self.builder.buildable(),
            forall|m: &mut Module| call_requires(self.setup_func, (m,)),
        ensures
            exists|temp_name: Seq<char>, built: &mut Module|
                #![trigger self.builder.builds(temp_name, *built)]
                random_named(squashed(self.builder.mod_path@), temp_name)
                    && self.builder.builds(temp_name, *built) && *final(built) == r
                    && call_ensures(self.setup_func, (built,), ()),
    {
        let prefix = crate::testing::namepath::squash(self.builder.mod_path.as_str());
        let temp_name = random_name(prefix.as_str());
        let mut module = self.builder.build_named(temp_name.as_str());
        (self.setup_func)(&mut module);
        module
    }

    /// As `build`, and `None` where the module path has no testing path; the
    /// setup function is then not run.
    pub fn try_build(self) -> (r: Option<Module>)
        requires
            forall|m: &mut Module| call_requires(self.setup_func, (m,)),
        ensures
            r is Some == self.builder.buildable(),
            r is Some ==> exists|temp_name: Seq<char>, built: &mut Module|
                #![trigger self.builder.builds(temp_name, *built)]
                random_named(squashed(self.builder.mod_path@), temp_name)
                    && self.builder.builds(temp_name, *built) && *final(built) == r->0
                    && call_ensures(self.setup_func, (built,), ()),
    {
        match crate::testing::namepath::make_testing_path(
            self.builder.use_case,
            self.builder.mod_path.as_str(),
        ) {
            Some(_) => Some(self.build()),
            None => None,
        }
    }
}

} // verus!
