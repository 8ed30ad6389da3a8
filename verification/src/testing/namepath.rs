//! Namepaths: module paths whose parts are separated by `::`.

use vstd::prelude::*;
use crate::path;
use crate::testing::{Model, UseCase};
use crate::testing::group::Group;
use crate::testing::module::Module;
use crate::text::{push_char, text_of, texts};

verus! {

pub open spec fn separator() -> Seq<char> {
    seq![':', ':']
}

/// The parts of a namepath from position `i` on, where `current` holds what
/// has been read of the part at hand: a part ends at each `::`, read from the
/// left, and at the end of the text.
pub open spec fn split_from(s: Seq<char>, i: int, current: Seq<char>) -> Seq<Seq<char>>
    decreases s.len() - i,
{
    if i < 0 || i >= s.len() {
        seq![current]
    } else if s[i] == ':' && i + 1 < s.len() && s[i + 1] == ':' {
        seq![current] + split_from(s, i + 2, Seq::empty())
    } else {
        split_from(s, i + 1, current.push(s[i]))
    }
}

/// The parts of a namepath.
pub open spec fn parts(s: Seq<char>) -> Seq<Seq<char>> {
    split_from(s, 0, Seq::empty())
}

/// The text with each `::`, read from the left, replaced by `_`.
pub open spec fn squashed_from(s: Seq<char>, i: int) -> Seq<char>
    decreases s.len() - i,
{
    if i < 0 || i >= s.len() {
        Seq::empty()
    } else if s[i] == ':' && i + 1 < s.len() && s[i + 1] == ':' {
        seq!['_'] + squashed_from(s, i + 2)
    } else {
        seq![s[i]] + squashed_from(s, i + 1)
    }
}

pub open spec fn squashed(s: Seq<char>) -> Seq<char> {
    squashed_from(s, 0)
}

/// The items with `::` between each two.
pub open spec fn joined_all(items: Seq<Seq<char>>) -> Seq<char>
    decreases items.len(),
{
    if items.len() == 0 {
        Seq::empty()
    } else if items.len() == 1 {
        items[0]
    } else {
        joined_all(items.drop_last()) + separator() + items.last()
    }
}

/// A first item joins the rest with a separator behind it.
proof fn lemma_joined_front(first: Seq<char>, rest: Seq<Seq<char>>)
    requires
        rest.len() > 0,
    ensures
        joined_all(seq![first] + rest) == first + separator() + joined_all(rest),
    decreases rest.len(),
{
    let all = seq![first] + rest;
    assert(all.last() == rest.last());
    if rest.len() == 1 {
        assert(all.drop_last() =~= seq![first]);
        assert(joined_all(seq![first]) == first);
        assert(joined_all(rest) == rest[0]);
    } else {
        assert(all.drop_last() =~= seq![first] + rest.drop_last());
        lemma_joined_front(first, rest.drop_last());
        assert(joined_all(all) =~= first + separator() + joined_all(rest));
    }
}

/// A text has at least one part.
proof fn lemma_split_not_empty(s: Seq<char>, i: int, current: Seq<char>)
    ensures
        split_from(s, i, current).len() > 0,
    decreases s.len() - i,
{
    if !(i < 0 || i >= s.len()) {
        if !(s[i] == ':' && i + 1 < s.len() && s[i + 1] == ':') {
            lemma_split_not_empty(s, i + 1, current.push(s[i]));
        }
    }
}

proof fn lemma_join_split_from(s: Seq<char>, i: int, current: Seq<char>)
    requires
        0 <= i <= s.len(),
    ensures
        joined_all(split_from(s, i, current)) == current + s.skip(i),
    decreases s.len() - i,
{
    if i >= s.len() {
        assert(current + s.skip(i) =~= current);
    } else if s[i] == ':' && i + 1 < s.len() && s[i + 1] == ':' {
        let rest = split_from(s, i + 2, Seq::empty());
        lemma_split_not_empty(s, i + 2, Seq::empty());
        lemma_join_split_from(s, i + 2, Seq::empty());
        lemma_joined_front(current, rest);
        assert(separator() + (Seq::<char>::empty() + s.skip(i + 2)) =~= s.skip(i));
        assert(current + separator() + (Seq::<char>::empty() + s.skip(i + 2)) =~= current + s.skip(
            i,
        ));
    } else {
        lemma_join_split_from(s, i + 1, current.push(s[i]));
        assert(current.push(s[i]) + s.skip(i + 1) =~= current + s.skip(i));
    }
}

/// The parts of a namepath, joined again, are the namepath.
pub proof fn lemma_join_split(s: Seq<char>)
    ensures
        joined_all(parts(s)) == s,
{
    lemma_join_split_from(s, 0, Seq::empty());
    assert(Seq::<char>::empty() + s.skip(0) =~= s);
}

/// Splits a namepath at its separators.
pub fn split(path: &str) -> (r: Vec<String>)
    ensures
        texts(r@) == parts(path@),
{
    let n = path.unicode_len();
    let mut done: Vec<String> = Vec::new();
    let mut current = String::new();
    let mut i: usize = 0;
    assert(texts(done@) =~= Seq::<Seq<char>>::empty());
    while i < n
        invariant
            0 <= i <= n,
            n == path@.len(),
            parts(path@) == texts(done@) + split_from(path@, i as int, current@),
        decreases n - i,
    {
        let c = path.get_char(i);
        if c == ':' && i + 1 < n && path.get_char(i + 1) == ':' {
            let ghost before = texts(done@);
            let ghost piece = current@;
            done.push(current);
            current = String::new();
            assert(texts(done@) =~= before + seq![piece]);
            i += 2;
        } else {
            push_char(&mut current, c);
            i += 1;
        }
    }
    let ghost before = texts(done@);
    let ghost piece = current@;
    done.push(current);
    assert(texts(done@) =~= before + seq![piece]);
    done
}

/// Replaces each separator by an underscore.
pub fn squash(path: &str) -> (r: String)
    ensures
        r@ == squashed(path@),
{
    let n = path.unicode_len();
    let mut out = String::new();
    let mut i: usize = 0;
    while i < n
        invariant
            0 <= i <= n,
            n == path@.len(),
            squashed(path@) == out@ + squashed_from(path@, i as int),
        decreases n - i,
    {
        let c = path.get_char(i);
        let ghost before = out@;
        if c == ':' && i + 1 < n && path.get_char(i + 1) == ':' {
            push_char(&mut out, '_');
            assert(out@ + squashed_from(path@, i + 2) =~= before + (seq!['_'] + squashed_from(
                path@,
                i + 2,
            )));
            i += 2;
        } else {
            push_char(&mut out, c);
            assert(out@ + squashed_from(path@, i + 1) =~= before + (seq![c] + squashed_from(
                path@,
                i + 1,
            )));
            i += 1;
        }
    }
    assert(out@ + Seq::<char>::empty() =~= out@);
    out
}

/// The directory under `base_dir` that stands for a namepath: one level for
/// each part.
pub fn dir(base_dir: &str, path: &str) -> (r: String)
    ensures
        r@ == path::joined(base_dir@, path::joined_all(Seq::empty(), parts(path@))),
{
    let pieces = split(path);
    let relative = path::join_all("", &pieces);
    proof {
        reveal_strlit("");
    }
    assert(""@ =~= Seq::<char>::empty());
    path::join(base_dir, relative.as_str())
}

/// Two namepaths made one: `left::right`.
pub fn join(left: &str, right: &str) -> (r: String)
    ensures
        r@ == left@ + separator() + right@,
{
    proof {
        reveal_strlit("::");
    }
    let r = String::from_str(left).concat("::").concat(right);
    assert("::"@ =~= separator());
    r
}

/// Three namepaths made one: `first::second::third`.
pub fn join_three(first: &str, second: &str, third: &str) -> (r: String)
    ensures
        r@ == first@ + separator() + second@ + separator() + third@,
{
    proof {
        reveal_strlit("::");
    }
    assert("::"@ =~= separator());
    let r = String::from_str(first).concat("::").concat(second).concat("::").concat(third);
    r
}

/// The texts of a list of string slices.
pub open spec fn slices(items: Seq<&str>) -> Seq<Seq<char>> {
    items.map_values(|s: &str| s@)
}

/// All items made one namepath.
pub fn join_all(items: &[&str]) -> (r: String)
    ensures
        r@ == joined_all(slices(items@)),
{
    let mut r = String::new();
    let mut i: usize = 0;
    proof {
        reveal_strlit("::");
    }
    assert("::"@ =~= separator());
    assert(slices(items@).take(0) =~= Seq::<Seq<char>>::empty());
    while i < items.len()
        invariant
            0 <= i <= items.len(),
            "::"@ == separator(),
            r@ == joined_all(slices(items@).take(i as int)),
        decreases items.len() - i,
    {
        let ghost next = slices(items@).take(i + 1);
        assert(next.drop_last() =~= slices(items@).take(i as int));
        assert(next.last() == items@[i as int]@);
        if i > 0 {
            r.append("::");
        } else {
            assert(r@ + items@[i as int]@ =~= items@[i as int]@);
            assert(next[0] == items@[0]@);
        }
        r.append(items[i]);
        i += 1;
    }
    assert(slices(items@).take(i as int) =~= slices(items@));
    r
}

/// What the `regex` crate finds as the first capture group of the leftmost
/// match of a pattern in a text: `None` where the pattern does not compile,
/// where the text holds no match, and where the group took no part in the match.
pub uninterp spec fn first_group(pattern: Seq<char>, text: Seq<char>) -> Option<Seq<char>>;

/// Compiles `pattern` with `regex::Regex::new`, searches `text` with
/// `Regex::captures` and reads group 1 with `Captures::get` and
/// `Match::as_str`. Trusted: the result is a function of the two texts alone,
/// named `first_group`. Nothing more is claimed of it.
#[verifier::external_body]
fn capture_first_group(pattern: &str, text: &str) -> (r: Option<String>)
    ensures
        text_of(r) == first_group(pattern@, text@),
{
    let compiled = regex::Regex::new(pattern).ok()?;
    let found = compiled.captures(text)?;
    found.get(1).map(|m| m.as_str().to_owned())
}

/// The pattern that takes the testing path out of a module path. For unit
/// tests the crate's name at the front is dropped; for the others the module
/// path is one word. A closing `::tests` is dropped for all.
pub open spec fn testing_pattern(use_case: UseCase) -> Seq<char> {
    match use_case {
        UseCase::Unit => "^\\w+::(.+?)(?:::tests)?$"@,
        _ => "^(\\w+?)(?:::tests)?$"@,
    }
}

/// The testing path of a module path, where it has one.
pub open spec fn testing_path_of(use_case: UseCase, mod_path: Seq<char>) -> Option<Seq<char>> {
    first_group(testing_pattern(use_case), mod_path)
}

/// Strips the crate's name and a closing `::tests` from a module path.
pub fn make_testing_path(use_case: UseCase, path: &str) -> (r: Option<String>)
    ensures
        text_of(r) == testing_path_of(use_case, path@),
{
    match use_case {
        UseCase::Unit => capture_first_group("^\\w+::(.+?)(?:::tests)?$", path),
        _ => capture_first_group("^(\\w+?)(?:::tests)?$", path),
    }
}

/// A namepath as a value: its level and its texts. A module has no name of
/// its own, and only a test can have a group's name beside its own.
pub ghost struct NamepathView {
    pub level: Model,
    pub mod_path: Seq<char>,
    pub path: Seq<char>,
    pub testing_path: Seq<char>,
    pub name: Option<Seq<char>>,
    pub group_name: Option<Seq<char>>,
}

/// What the three kinds of namepath have in common.
pub trait NamepathTrait {
    spec fn module_text(&self) -> Seq<char>;

    spec fn path_text(&self) -> Seq<char>;

    spec fn testing_text(&self) -> Seq<char>;

    /// The path of the module that the namepath lies in.
    fn mod_path(&self) -> (r: &str)
        ensures
            r@ == self.module_text(),
    ;

    /// The whole namepath.
    fn path(&self) -> (r: &str)
        ensures
            r@ == self.path_text(),
    ;

    /// The namepath as it is laid out under the fixture directory.
    fn testing_path(&self) -> (r: &str)
        ensures
            r@ == self.testing_text(),
    ;

    fn components(&self) -> (r: Vec<String>)
        ensures
            texts(r@) == parts(self.path_text()),
    {
        split(self.path())
    }

    /// The namepath as a relative directory.
    fn dir(&self) -> (r: String)
        ensures
            r@ == path::joined_all(Seq::empty(), parts(self.path_text())),
    {
        let pieces = split(self.path());
        proof {
            reveal_strlit("");
        }
        assert(""@ =~= Seq::<char>::empty());
        path::join_all("", &pieces)
    }

    /// The testing path as a relative directory.
    fn testing_dir(&self) -> (r: String)
        ensures
            r@ == path::joined_all(Seq::empty(), parts(self.testing_text())),
    {
        let pieces = split(self.testing_path());
        proof {
            reveal_strlit("");
        }
        assert(""@ =~= Seq::<char>::empty());
        path::join_all("", &pieces)
    }

    fn squash(&self) -> (r: String)
        ensures
            r@ == squashed(self.path_text()),
    {
        squash(self.path())
    }
}

#[derive(PartialEq, Eq, Debug)]
pub struct ModuleNamepath {
    mod_path: String,
    testing_path: String,
}

impl View for ModuleNamepath {
    type V = NamepathView;

    closed spec fn view(&self) -> NamepathView {
        NamepathView {
            level: Model::Module,
            mod_path: self.mod_path@,
            path: self.mod_path@,
            testing_path: self.testing_path@,
            name: None,
            group_name: None,
        }
    }
}

impl Clone for ModuleNamepath {
    fn clone(&self) -> (r: Self)
        ensures
            r@ == self@,
    {
        ModuleNamepath {
            mod_path: self.mod_path.clone(),
            testing_path: self.testing_path.clone(),
        }
    }
}

impl NamepathTrait for ModuleNamepath {
    open spec fn module_text(&self) -> Seq<char> {
        self@.mod_path
    }

    open spec fn path_text(&self) -> Seq<char> {
        self@.path
    }

    open spec fn testing_text(&self) -> Seq<char> {
        self@.testing_path
    }

    fn mod_path(&self) -> (r: &str) {
        self.mod_path.as_str()
    }

    fn path(&self) -> (r: &str) {
        self.mod_path.as_str()
    }

    fn testing_path(&self) -> (r: &str) {
        self.testing_path.as_str()
    }
}

impl ModuleNamepath {
    /// What `new` makes of a module path with the testing path `testing`.
    pub open spec fn made(mod_path: Seq<char>, testing: Seq<char>) -> NamepathView {
        NamepathView {
            level: Model::Module,
            mod_path,
            path: mod_path,
            testing_path: testing,
            name: None,
            group_name: None,
        }
    }

    /// The namepath of a module. The module path must have a testing path.
    pub fn new(use_case: UseCase, mod_path: String) -> (r: Self)
        requires
            testing_path_of(use_case, mod_path@) is Some,
        ensures
            r@ == Self::made(mod_path@, testing_path_of(use_case, mod_path@)->0),
    {
        let testing_path = match make_testing_path(use_case, mod_path.as_str()) {
            Some(t) => t,
            None => String::new(),
        };
        ModuleNamepath { testing_path, mod_path }
    }

    /// The namepath of a module, and `None` where the module path has no
    /// testing path.
    pub fn try_new(use_case: UseCase, mod_path: String) -> (r: Option<Self>)
        ensures
            r is Some == testing_path_of(use_case, mod_path@) is Some,
            r is Some ==> r->0@ == Self::made(
                mod_path@,
                testing_path_of(use_case, mod_path@)->0,
            ),
    {
        match make_testing_path(use_case, mod_path.as_str()) {
            Some(_) => Some(Self::new(use_case, mod_path)),
            None => None,
        }
    }

    pub fn same(&self, other: &ModuleNamepath) -> (r: bool)
        ensures
            r == (self@ == other@),
    {
        self.mod_path == other.mod_path && self.testing_path == other.testing_path
    }
}

#[derive(PartialEq, Eq, Debug)]
pub struct GroupNamepath {
    mod_path: String,
    name: String,
    path: String,
    testing_path: String,
}

impl View for GroupNamepath {
    type V = NamepathView;

    closed spec fn view(&self) -> NamepathView {
        NamepathView {
            level: Model::Group,
            mod_path: self.mod_path@,
            path: self.path@,
            testing_path: self.testing_path@,
            name: Some(self.name@),
            group_name: None,
        }
    }
}

impl Clone for GroupNamepath {
    fn clone(&self) -> (r: Self)
        ensures
            r@ == self@,
    {
        GroupNamepath {
            mod_path: self.mod_path.clone(),
            name: self.name.clone(),
            path: self.path.clone(),
            testing_path: self.testing_path.clone(),
        }
    }
}

impl NamepathTrait for GroupNamepath {
    open spec fn module_text(&self) -> Seq<char> {
        self@.mod_path
    }

    open spec fn path_text(&self) -> Seq<char> {
        self@.path
    }

    open spec fn testing_text(&self) -> Seq<char> {
        self@.testing_path
    }

    fn mod_path(&self) -> (r: &str) {
        self.mod_path.as_str()
    }

    fn path(&self) -> (r: &str) {
        self.path.as_str()
    }

    fn testing_path(&self) -> (r: &str) {
        self.testing_path.as_str()
    }
}

impl GroupNamepath {
    /// What `new` makes of a group's name under a module's namepath.
    pub open spec fn made(module: NamepathView, name: Seq<char>) -> NamepathView {
        NamepathView {
            level: Model::Group,
            mod_path: module.mod_path,
            path: module.mod_path + separator() + name,
            testing_path: module.testing_path + separator() + name,
            name: Some(name),
            group_name: None,
        }
    }

    /// The namepath of the group `name` of `module`.
    pub fn new(module: &Module, name: String) -> (r: Self)
        ensures
            r@ == Self::made(module.namepath_view(), name@),
    {
        let mod_path = String::from_str(module.namepath().mod_path());
        let path = join(mod_path.as_str(), name.as_str());
        let testing_path = join(module.namepath().testing_path(), name.as_str());
        GroupNamepath { path, testing_path, mod_path, name }
    }

    pub fn name(&self) -> (r: &str)
        ensures
            Some(r@) == self@.name,
    {
        self.name.as_str()
    }

    pub fn same(&self, other: &GroupNamepath) -> (r: bool)
        ensures
            r == (self@ == other@),
    {
        self.mod_path == other.mod_path && self.name == other.name && self.path
            == other.path && self.testing_path == other.testing_path
    }
}

#[derive(PartialEq, Eq, Debug)]
pub struct TestNamepath {
    mod_path: String,
    group_name: Option<String>,
    name: String,
    path: String,
    testing_path: String,
}

impl View for TestNamepath {
    type V = NamepathView;

    closed spec fn view(&self) -> NamepathView {
        NamepathView {
            level: Model::Test,
            mod_path: self.mod_path@,
            path: self.path@,
            testing_path: self.testing_path@,
            name: Some(self.name@),
            group_name: text_of(self.group_name),
        }
    }
}

impl Clone for TestNamepath {
    fn clone(&self) -> (r: Self)
        ensures
            r@ == self@,
    {
        let group_name = match &self.group_name {
            Some(g) => Some(g.clone()),
            None => None,
        };
        TestNamepath {
            mod_path: self.mod_path.clone(),
            group_name,
            name: self.name.clone(),
            path: self.path.clone(),
            testing_path: self.testing_path.clone(),
        }
    }
}

impl NamepathTrait for TestNamepath {
    open spec fn module_text(&self) -> Seq<char> {
        self@.mod_path
    }

    open spec fn path_text(&self) -> Seq<char> {
        self@.path
    }

    open spec fn testing_text(&self) -> Seq<char> {
        self@.testing_path
    }

    fn mod_path(&self) -> (r: &str) {
        self.mod_path.as_str()
    }

    fn path(&self) -> (r: &str) {
        self.path.as_str()
    }

    fn testing_path(&self) -> (r: &str) {
        self.testing_path.as_str()
    }
}

impl TestNamepath {
    /// What `new` makes of a test's name under a module's namepath and, where
    /// the test lies in a group, under the group's name.
    pub open spec fn made(
        module: NamepathView,
        group_name: Option<Seq<char>>,
        name: Seq<char>,
    ) -> NamepathView {
        let middle = match group_name {
            Some(g) => separator() + g,
            None => Seq::empty(),
        };
        NamepathView {
            level: Model::Test,
            mod_path: module.mod_path,
            path: module.mod_path + middle + separator() + name,
            testing_path: module.testing_path + middle + separator() + name,
            name: Some(name),
            group_name,
        }
    }

    /// The namepath of the test `name` of `module`, inside `group` if one is given.
    pub fn new(module: &Module, group: Option<&Group>, name: String) -> (r: Self)
        requires
            group is Some ==> group->0.well_formed(),
        ensures
            r@ == Self::made(
                module.namepath_view(),
                match group {
                    Some(g) => g.namepath_view().name,
                    None => None,
                },
                name@,
            ),
            group is Some ==> group->0.namepath_view().name is Some,
    {
        let mod_path = String::from_str(module.namepath().mod_path());
        match group {
            Some(group) => {
                let group_name = String::from_str(group.name());
                let path = join_three(mod_path.as_str(), group_name.as_str(), name.as_str());
                let testing_path = join_three(
                    module.namepath().testing_path(),
                    group_name.as_str(),
                    name.as_str(),
                );
                let r = TestNamepath {
                    path,
                    mod_path,
                    group_name: Some(group_name),
                    name,
                    testing_path,
                };
                assert(r@.path =~= module.namepath_view().mod_path + (separator()
                    + group_name@) + separator() + name@);
                assert(r@.testing_path =~= module.namepath_view().testing_path + (separator()
                    + group_name@) + separator() + name@);
                r
            },
            None => {
                let path = join(mod_path.as_str(), name.as_str());
                let testing_path = join(module.namepath().testing_path(), name.as_str());
                let r = TestNamepath { path, mod_path, group_name: None, name, testing_path };
                assert(r@.path =~= module.namepath_view().mod_path + Seq::<char>::empty()
                    + separator() + name@);
                assert(r@.testing_path =~= module.namepath_view().testing_path + Seq::<
                    char,
                >::empty() + separator() + name@);
                r
            },
        }
    }

    pub fn name(&self) -> (r: &str)
        ensures
            Some(r@) == self@.name,
    {
        self.name.as_str()
    }

    pub fn group_name(&self) -> (r: Option<&str>)
        ensures
            r is Some == self@.group_name is Some,
            r is Some ==> Some(r->0@) == self@.group_name,
    {
        match &self.group_name {
            Some(g) => Some(g.as_str()),
            None => None,
        }
    }

    pub fn same(&self, other: &TestNamepath) -> (r: bool)
        ensures
            r == (self@ == other@),
    {
        let groups = match (&self.group_name, &other.group_name) {
            (Some(a), Some(b)) => *a == *b,
            (None, None) => true,
            _ => false,
        };
        groups && self.mod_path == other.mod_path && self.name == other.name && self.path
            == other.path && self.testing_path == other.testing_path
    }
}

/// The namepath of a module, of a group or of a test.
#[derive(PartialEq, Eq, Debug)]
pub enum Namepath {
    Module(ModuleNamepath),
    Group(GroupNamepath),
    Test(TestNamepath),
}

impl View for Namepath {
    type V = NamepathView;

    open spec fn view(&self) -> NamepathView {
        match self {
            Namepath::Module(n) => n@,
            Namepath::Group(n) => n@,
            Namepath::Test(n) => n@,
        }
    }
}

impl Clone for Namepath {
    fn clone(&self) -> (r: Self)
        ensures
            r@ == self@,
            r is Module == self is Module,
            r is Group == self is Group,
            r is Test == self is Test,
    {
        match self {
            Namepath::Module(n) => Namepath::Module(n.clone()),
            Namepath::Group(n) => Namepath::Group(n.clone()),
            Namepath::Test(n) => Namepath::Test(n.clone()),
        }
    }
}

impl Namepath {
    pub fn module(use_case: UseCase, mod_path: String) -> (r: Self)
        requires
            testing_path_of(use_case, mod_path@) is Some,
        ensures
            r is Module,
            r@ == ModuleNamepath::made(mod_path@, testing_path_of(use_case, mod_path@)->0),
    {
        Namepath::Module(ModuleNamepath::new(use_case, mod_path))
    }

    /// As `module`, and `None` where the module path has no testing path.
    pub fn try_module(use_case: UseCase, mod_path: String) -> (r: Option<Self>)
        ensures
            r is Some == testing_path_of(use_case, mod_path@) is Some,
            r is Some ==> r->0 is Module && r->0@ == ModuleNamepath::made(
                mod_path@,
                testing_path_of(use_case, mod_path@)->0,
            ),
    {
        match make_testing_path(use_case, mod_path.as_str()) {
            Some(_) => Some(Self::module(use_case, mod_path)),
            None => None,
        }
    }

    pub fn group(module: &Module, name: String) -> (r: Self)
        ensures
            r is Group,
            r@ == GroupNamepath::made(module.namepath_view(), name@),
    {
        Namepath::Group(GroupNamepath::new(module, name))
    }

    pub fn test(module: &Module, group: Option<&Group>, name: String) -> (r: Self)
        requires
            group is Some ==> group->0.well_formed(),
        ensures
            r is Test,
            r@ == TestNamepath::made(
                module.namepath_view(),
                match group {
                    Some(g) => g.namepath_view().name,
                    None => None,
                },
                name@,
            ),
    {
        Namepath::Test(TestNamepath::new(module, group, name))
    }

    /// True when the two namepaths are of the same level and agree in every text.
    pub fn same(&self, other: &Namepath) -> (r: bool)
        ensures
            r == (self@ == other@),
    {
        match (self, other) {
            (Namepath::Module(a), Namepath::Module(b)) => a.same(b),
            (Namepath::Group(a), Namepath::Group(b)) => a.same(b),
            (Namepath::Test(a), Namepath::Test(b)) => a.same(b),
            _ => false,
        }
    }
}

impl NamepathTrait for Namepath {
    open spec fn module_text(&self) -> Seq<char> {
        self@.mod_path
    }

    open spec fn path_text(&self) -> Seq<char> {
        self@.path
    }

    open spec fn testing_text(&self) -> Seq<char> {
        self@.testing_path
    }

    fn mod_path(&self) -> (r: &str) {
        match self {
            Namepath::Module(n) => n.mod_path(),
            Namepath::Group(n) => n.mod_path(),
            Namepath::Test(n) => n.mod_path(),
        }
    }

    fn path(&self) -> (r: &str) {
        match self {
            Namepath::Module(n) => n.path(),
            Namepath::Group(n) => n.path(),
            Namepath::Test(n) => n.path(),
        }
    }

    fn testing_path(&self) -> (r: &str) {
        match self {
            Namepath::Module(n) => n.testing_path(),
            Namepath::Group(n) => n.testing_path(),
            Namepath::Test(n) => n.testing_path(),
        }
    }
}

} // verus!
