//! A model of tests in three levels, module, group and test, each with a
//! namepath and with the fixture and temporary directories that belong to it.
//!
//! Nothing here touches the file system: the models say which directories
//! they stand for, and the caller creates, checks and removes them.

use vstd::prelude::*;
use crate::path;
use crate::testing::namepath::{NamepathView, parts};
use crate::text::{has_char, has_pair, holds_pair};

pub mod group;
pub mod module;
pub mod namepath;
pub mod test;

pub use group::{Group, GroupBuilder};
pub use module::{Module, ModuleBuilder};
pub use namepath::{Namepath, NamepathTrait};
pub use test::{Parent, Test, TestBuilder};



verus! {

/// What a module of tests is for.
#[derive(Copy, Clone, Debug, PartialEq, Eq, Structural)]
pub enum UseCase {
    Unit,
    Integration,
    Benchmark,
}

impl UseCase {
    pub open spec fn spec_to_str(self) -> Seq<char> {
        match self {
            UseCase::Unit => "unit"@,
            UseCase::Integration => "integration"@,
            UseCase::Benchmark => "benchmark"@,
        }
    }

    pub fn to_str(&self) -> (r: &'static str)
        ensures
            r@ == self.spec_to_str(),
    {
        match self {
            UseCase::Unit => "unit",
            UseCase::Integration => "integration",
            UseCase::Benchmark => "benchmark",
        }
    }
}

/// The three levels.
#[derive(Debug, Copy, Clone, PartialEq, Eq, Structural)]
pub enum Model {
    Module,
    Group,
    Test,
}

impl Model {
    pub open spec fn spec_to_str(self) -> Seq<char> {
        match self {
            Model::Module => "module"@,
            Model::Group => "group"@,
            Model::Test => "test"@,
        }
    }

    pub fn to_str(&self) -> (r: &'static str)
        ensures
            r@ == self.spec_to_str(),
    {
        match self {
            Model::Module => "module",
            Model::Group => "group",
            Model::Test => "test",
        }
    }
}

/// Starts the model of a module of unit tests.
pub fn unit(mod_path: &str) -> (r: ModuleBuilder)
    ensures
        r == ModuleBuilder::fresh(r.mod_path, r.base_temp_dir, UseCase::Unit),
        r.mod_path@ == mod_path@,
        r.base_temp_dir@ == module::default_base_temp_dir(),
{
    ModuleBuilder::new(mod_path, UseCase::Unit)
}

/// Starts the model of a module of integration tests.
pub fn integration(mod_path: &str) -> (r: ModuleBuilder)
    ensures
        r == ModuleBuilder::fresh(r.mod_path, r.base_temp_dir, UseCase::Integration),
        r.mod_path@ == mod_path@,
        r.base_temp_dir@ == module::default_base_temp_dir(),
{
    ModuleBuilder::new(mod_path, UseCase::Integration)
}

/// Starts the model of a module of benchmarks.
pub fn benchmark(mod_path: &str) -> (r: ModuleBuilder)
    ensures
        r == ModuleBuilder::fresh(r.mod_path, r.base_temp_dir, UseCase::Benchmark),
        r.mod_path@ == mod_path@,
        r.base_temp_dir@ == module::default_base_temp_dir(),
{
    ModuleBuilder::new(mod_path, UseCase::Benchmark)
}

/// What a module, a group and a test have in common: the directories they
/// stand for. Each of the three getters is for a directory that was configured.
pub trait Testable {
    spec fn fixture_text(&self) -> Option<Seq<char>>;

    spec fn temp_text(&self) -> Option<Seq<char>>;

    /// The fixture directory imported for `namepath`, here or further up.
    spec fn imported_text(&self, namepath: NamepathView) -> Option<Seq<char>>;

    fn fixture_dir(&self) -> (r: &str)
        requires
            self.fixture_text() is Some,
        ensures
            Some(r@) == self.fixture_text(),
    ;

    fn imported_fixture_dir(&self, namepath: &Namepath) -> (r: &str)
        requires
            self.imported_text(namepath@) is Some,
        ensures
            Some(r@) == self.imported_text(namepath@),
    ;

    fn temp_dir(&self) -> (r: &str)
        requires
            self.temp_text() is Some,
        ensures
            Some(r@) == self.temp_text(),
    ;
}

/// The temporary directory of a namepath under a base: one level for each
/// part of the namepath.
pub open spec fn temp_path(base: Seq<char>, namepath: Seq<char>) -> Seq<char> {
    path::joined(base, path::joined_all(Seq::empty(), parts(namepath)))
}

/// The fixture directory of a testing path:
/// `testing/fixtures/<use case>/<one level for each part>`.
pub open spec fn fixture_path(use_case: UseCase, testing_path: Seq<char>) -> Seq<char> {
    path::joined(
        path::joined(path::joined("testing"@, "fixtures"@), use_case.spec_to_str()),
        path::joined_all(Seq::empty(), parts(testing_path)),
    )
}

pub fn build_temp_dir(namepath: &Namepath, base_temp_dir: &str) -> (r: String)
    ensures
        r@ == temp_path(base_temp_dir@, namepath@.path),
{
    let relative = namepath.dir();
    path::join(base_temp_dir, relative.as_str())
}

pub fn build_fixture_dir(namepath: &Namepath, use_case: UseCase) -> (r: String)
    ensures
        r@ == fixture_path(use_case, namepath@.testing_path),
{
    let root = path::join("testing", "fixtures");
    let kind = path::join(root.as_str(), use_case.to_str());
    let relative = namepath.testing_dir();
    path::join(kind.as_str(), relative.as_str())
}

/// The imported fixture directories as values, oldest first.
pub open spec fn entry_views(entries: Option<Vec<(Namepath, String)>>) -> Seq<
    (NamepathView, Seq<char>),
> {
    match entries {
        Some(v) => v@.map_values(|e: (Namepath, String)| (e.0@, e.1@)),
        None => Seq::empty(),
    }
}

/// The directory imported for `key`: the one imported last, if any was.
pub open spec fn found(entries: Seq<(NamepathView, Seq<char>)>, key: NamepathView) -> Option<
    Seq<char>,
>
    decreases entries.len(),
{
    if entries.len() == 0 {
        None
    } else if entries.last().0 == key {
        Some(entries.last().1)
    } else {
        found(entries.drop_last(), key)
    }
}

/// Looks up the directory imported for `namepath`.
pub fn find_imported<'a>(entries: &'a Option<Vec<(Namepath, String)>>, namepath: &Namepath) -> (r:
    Option<&'a str>)
    ensures
        r is Some == found(entry_views(*entries), namepath@) is Some,
        r is Some ==> Some(r->0@) == found(entry_views(*entries), namepath@),
{
    match entries {
        None => None,
        Some(v) => {
            let ghost all = entry_views(*entries);
            let mut i: usize = v.len();
            assert(all.take(i as int) =~= all);
            while i > 0
                invariant
                    0 <= i <= v.len(),
                    all == entry_views(*entries),
                    *entries == Some(*v),
                    found(all, namepath@) == found(all.take(i as int), namepath@),
                decreases i,
            {
                i -= 1;
                assert(all.take(i + 1).drop_last() =~= all.take(i as int));
                assert(all.take(i + 1).last() == (v@[i as int].0@, v@[i as int].1@));
                if v[i].0.same(namepath) {
                    return Some(v[i].1.as_str());
                }
            }
            None
        },
    }
}

/// Adds the fixture directory of `namepath` to the imported ones.
pub fn import_entry(
    entries: Option<Vec<(Namepath, String)>>,
    namepath: &Namepath,
    use_case: UseCase,
) -> (r: Option<Vec<(Namepath, String)>>)
    ensures
        r is Some,
        entry_views(r) == entry_views(entries).push(
            (namepath@, fixture_path(use_case, namepath@.testing_path)),
        ),
{
    let mut list = match entries {
        Some(v) => v,
        None => Vec::new(),
    };
    let ghost before = entry_views(Some(list));
    assert(before =~= entry_views(entries));
    let dir = build_fixture_dir(namepath, use_case);
    list.push((namepath.clone(), dir));
    let r = Some(list);
    assert(entry_views(r) =~= before.push(
        (namepath@, fixture_path(use_case, namepath@.testing_path)),
    ));
    r
}

/// A group's name is one token: it holds no `:`, no `/` and no `.`.
pub open spec fn group_token(name: Seq<char>) -> bool {
    !name.contains(':') && !name.contains('/') && !name.contains('.')
}

/// A test's name is one token: it holds no `::`, no `/` and no `.`.
pub open spec fn test_token(name: Seq<char>) -> bool {
    !has_pair(name, ':', ':') && !name.contains('/') && !name.contains('.')
}

pub fn is_group_token(name: &str) -> (r: bool)
    ensures
        r == group_token(name@),
{
    !has_char(name, ':') && !has_char(name, '/') && !has_char(name, '.')
}

pub fn is_test_token(name: &str) -> (r: bool)
    ensures
        r == test_token(name@),
{
    !holds_pair(name, ':', ':') && !has_char(name, '/') && !has_char(name, '.')
}

} // verus!
