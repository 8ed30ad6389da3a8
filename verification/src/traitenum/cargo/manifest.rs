//! Cargo manifests as the `toml` crate reads them, and what the layout of a
//! workspace takes from them.

use vstd::prelude::*;
use crate::text::{decimal, decimal_text, parts_at, split_at_char, text_of, texts};
use crate::traitenum::cargo::Errors;
use crate::traitenum::cargo::meta::{builder, WorkspaceMeta};

verus! {

/// A value of a TOML document, as the `toml` crate holds it.
#[verifier::external_type_specification]
#[verifier::external_body]
pub struct ExValue(toml::Value);

/// What a value of a TOML document holds. Of numbers, truth values and dates
/// only that they are there.
pub ghost enum Tree {
    Text(Seq<char>),
    Array(Seq<Tree>),
    Table(Map<Seq<char>, Tree>),
    Other,
}

/// What a value holds.
pub uninterp spec fn tree_of(value: toml::Value) -> Tree;

/// What the `toml` crate reads from a text: what the document holds, or the
/// parser's message where the text is no TOML.
pub uninterp spec fn document_of(text: Seq<char>) -> Result<Tree, Seq<char>>;

/// Reads a document with `toml::from_str` and, where that fails, takes the
/// parser's message (`Error::message`). Trusted: the outcome is a function of
/// the text alone, named `document_of`.
#[verifier::external_body]
fn parse_document(text: &str) -> (r: Result<toml::Value, String>)
    ensures
        match r {
            Ok(value) => document_of(text@) == Ok::<Tree, Seq<char>>(tree_of(value)),
            Err(message) => document_of(text@) == Err::<Tree, Seq<char>>(message@),
        },
{
    toml::from_str::<toml::Value>(text).map_err(|e| e.message().to_owned())
}

/// Asks `toml::Value::is_table`. Trusted: the answer is whether the value
/// holds a table.
#[verifier::external_body]
fn table(value: &toml::Value) -> (r: bool)
    ensures
        r == tree_of(*value) is Table,
{
    value.is_table()
}

/// Looks a key up with `toml::Value::get`. Trusted: a value comes back where
/// the value asked is a table that has the key, and it is what the table
/// holds under the key.
#[verifier::external_body]
fn entry<'a>(value: &'a toml::Value, key: &str) -> (r: Option<&'a toml::Value>)
    ensures
        r is Some == entry_of(tree_of(*value), key@) is Some,
        r is Some ==> tree_of(*r->0) == entry_of(tree_of(*value), key@)->0,
{
    value.get(key)
}

/// Reads a string with `toml::Value::as_str`. Trusted: a text comes back
/// where the value is a string, and it is the text of the string.
#[verifier::external_body]
fn text<'a>(value: &'a toml::Value) -> (r: Option<&'a str>)
    ensures
        r is Some == tree_of(*value) is Text,
        r is Some ==> r->0@ == tree_of(*value)->Text_0,
{
    value.as_str()
}

/// Reads an array with `toml::Value::as_array`. Trusted: the items come back
/// where the value is an array, as many as the array has and each holding what
/// the array holds at its place.
#[verifier::external_body]
fn items<'a>(value: &'a toml::Value) -> (r: Option<&'a Vec<toml::Value>>)
    ensures
        r is Some == tree_of(*value) is Array,
        r is Some ==> trees(r->0@) == tree_of(*value)->Array_0,
{
    value.as_array()
}

/// What each of a list of values holds.
pub open spec fn trees(values: Seq<toml::Value>) -> Seq<Tree> {
    values.map_values(|v: toml::Value| tree_of(v))
}

/// What a table holds under a key: `None` where the tree is no table or the
/// table has no such key.
pub open spec fn entry_of(tree: Tree, key: Seq<char>) -> Option<Tree> {
    match tree {
        Tree::Table(entries) => if entries.contains_key(key) {
            Some(entries[key])
        } else {
            None
        },
        _ => None,
    }
}

/// The text of a tree that is a string.
pub open spec fn text_in(tree: Tree) -> Option<Seq<char>> {
    match tree {
        Tree::Text(t) => Some(t),
        _ => None,
    }
}

/// The items of a tree that is an array.
pub open spec fn items_of(tree: Tree) -> Option<Seq<Tree>> {
    match tree {
        Tree::Array(a) => Some(a),
        _ => None,
    }
}

/// Reads the contents of a manifest. Where they are no TOML, the parser's
/// message comes back.
pub fn read_manifest(contents: &str) -> (r: Result<toml::Value, String>)
    ensures
        match r {
            Ok(value) => document_of(contents@) == Ok::<Tree, Seq<char>>(tree_of(value)),
            Err(message) => document_of(contents@) == Err::<Tree, Seq<char>>(message@),
        },
{
    parse_document(contents)
}

/// Accepts a manifest as that of a workspace: it must be a table and have the
/// key `workspace`.
pub fn check_workspace_manifest(manifest: &toml::Value, filepath: &str) -> (r: Result<(), Errors>)
    ensures
        r is Ok == entry_of(tree_of(*manifest), "workspace"@) is Some,
        !(tree_of(*manifest) is Table) ==> (r matches Err(Errors::InvalidCargoManifest(f)) && f@
            == filepath@),
        tree_of(*manifest) is Table && entry_of(tree_of(*manifest), "workspace"@) is None ==> (r
            matches Err(Errors::CargoManifestNotWorkspace(f)) && f@ == filepath@),
{
    if !table(manifest) {
        Err(Errors::InvalidCargoManifest(String::from_str(filepath)))
    } else if entry(manifest, "workspace").is_some() {
        Ok(())
    } else {
        Err(Errors::CargoManifestNotWorkspace(String::from_str(filepath)))
    }
}

/// The tree reached from `tree` by looking up one key after the other.
pub open spec fn walk(tree: Tree, keys: Seq<Seq<char>>) -> Option<Tree>
    decreases keys.len(),
{
    if keys.len() == 0 {
        Some(tree)
    } else {
        match entry_of(tree, keys.first()) {
            Some(next) => walk(next, keys.drop_first()),
            None => None,
        }
    }
}

/// The tree at a path of keys that are separated by dots.
pub open spec fn at_path(tree: Tree, path: Seq<char>) -> Option<Tree> {
    walk(tree, parts_at(path, '.'))
}

/// The text at a path, where a string stands there.
pub open spec fn text_at(tree: Tree, path: Seq<char>) -> Option<Seq<char>> {
    match at_path(tree, path) {
        Some(found) => text_in(found),
        None => None,
    }
}

/// The items at a path, where an array stands there.
pub open spec fn items_at(tree: Tree, path: Seq<char>) -> Option<Seq<Tree>> {
    match at_path(tree, path) {
        Some(found) => items_of(found),
        None => None,
    }
}

/// A path with the context it was looked up in: `context.path`.
pub open spec fn in_context(context: Seq<char>, path: Seq<char>) -> Seq<char> {
    context + seq!['.'] + path
}

/// Finds the value at a dotted path. Where a key on the way is missing, the
/// error names the path and the manifest.
pub fn toml_path<'toml>(path: &str, toml: &'toml toml::Value, cargo_manifest_filepath: &str) -> (r:
    Result<&'toml toml::Value, Errors>)
    ensures
        match at_path(tree_of(*toml), path@) {
            Some(found) => r is Ok && tree_of(*r->Ok_0) == found,
            None => r matches Err(Errors::MissingCargoMetadata(p, f)) && p@ == path@ && f@
                == cargo_manifest_filepath@,
        },
{
    let keys = split_at_char(path, '.');
    let mut value = toml;
    let mut i: usize = 0;
    assert(texts(keys@).skip(0) =~= texts(keys@));
    while i < keys.len()
        invariant
            0 <= i <= keys.len(),
            texts(keys@) == parts_at(path@, '.'),
            at_path(tree_of(*toml), path@) == walk(tree_of(*value), texts(keys@).skip(i as int)),
        decreases keys.len() - i,
    {
        let ghost rest = texts(keys@).skip(i as int);
        assert(rest.first() == keys@[i as int]@);
        assert(rest.drop_first() =~= texts(keys@).skip(i + 1));
        match entry(value, keys[i].as_str()) {
            Some(next) => {
                value = next;
            },
            None => {
                return Err(
                    Errors::MissingCargoMetadata(
                        String::from_str(path),
                        String::from_str(cargo_manifest_filepath),
                    ),
                );
            },
        }
        i += 1;
    }
    Ok(value)
}

/// Finds the array at a dotted path. Where the path leads nowhere the error
/// is that of `toml_path`; where it leads to something else than an array, the
/// error names the path in its context and the manifest.
pub fn toml_array<'toml>(
    path: &str,
    toml: &'toml toml::Value,
    context: &str,
    cargo_manifest_filepath: &str,
) -> (r: Result<&'toml Vec<toml::Value>, Errors>)
    ensures
        r is Ok == items_at(tree_of(*toml), path@) is Some,
        r is Ok ==> trees(r->Ok_0@) == items_at(tree_of(*toml), path@)->0,
        at_path(tree_of(*toml), path@) is None ==> (r matches Err(Errors::MissingCargoMetadata(p, f)) && p@
            == path@ && f@ == cargo_manifest_filepath@),
        at_path(tree_of(*toml), path@) is Some && items_at(tree_of(*toml), path@) is None ==> (r matches Err(
            Errors::InvalidCargoMetadata(p, f),
        ) && p@ == in_context(context@, path@) && f@ == cargo_manifest_filepath@),
{
    let found = match toml_path(path, toml, cargo_manifest_filepath) {
        Ok(found) => found,
        Err(e) => {
            return Err(e);
        },
    };
    match items(found) {
        Some(array) => Ok(array),
        None => {
            proof {
                reveal_strlit(".");
            }
            let named = String::from_str(context).concat(".").concat(path);
            assert(named@ =~= in_context(context@, path@));
            Err(Errors::InvalidCargoMetadata(named, String::from_str(cargo_manifest_filepath)))
        },
    }
}

/// Finds the string at a dotted path. Where the path leads nowhere the error
/// is that of `toml_path`; where it leads to something else than a string, the
/// error names the path in its context and the manifest.
pub fn toml_str<'toml>(
    path: &str,
    toml: &'toml toml::Value,
    context: &str,
    cargo_manifest_filepath: &str,
) -> (r: Result<&'toml str, Errors>)
    ensures
        r is Ok == text_at(tree_of(*toml), path@) is Some,
        r is Ok ==> r->Ok_0@ == text_at(tree_of(*toml), path@)->0,
        at_path(tree_of(*toml), path@) is None ==> (r matches Err(Errors::MissingCargoMetadata(p, f)) && p@
            == path@ && f@ == cargo_manifest_filepath@),
        at_path(tree_of(*toml), path@) is Some && text_at(tree_of(*toml), path@) is None ==> (r matches Err(
            Errors::InvalidCargoMetadata(p, f),
        ) && p@ == in_context(context@, path@) && f@ == cargo_manifest_filepath@),
{
    let found = match toml_path(path, toml, cargo_manifest_filepath) {
        Ok(found) => found,
        Err(e) => {
            return Err(e);
        },
    };
    match text(found) {
        Some(string) => Ok(string),
        None => {
            proof {
                reveal_strlit(".");
            }
            let named = String::from_str(context).concat(".").concat(path);
            assert(named@ =~= in_context(context@, path@));
            Err(Errors::InvalidCargoMetadata(named, String::from_str(cargo_manifest_filepath)))
        },
    }
}

/// True when an entry of the workspace's list of libraries names the library
/// and the directories of its two packages.
pub open spec fn names_library(item: Tree) -> bool {
    text_at(item, "name"@) is Some && text_at(item, "lib-dir"@) is Some && text_at(
        item,
        "derive-dir"@,
    ) is Some
}

/// True of the builder that is started from an entry of the list of libraries.
pub open spec fn started_from(library: builder::LibraryMeta, item: Tree) -> bool {
    &&& text_of(library.name) == text_at(item, "name"@)
    &&& text_of(library.lib_dir) == text_at(item, "lib-dir"@)
    &&& text_of(library.derive_dir) == text_at(item, "derive-dir"@)
    &&& library.lib_name is None
    &&& library.derive_name is None
    &&& library.traits@.len() == 0
}

/// The path of the workspace's list of libraries.
pub open spec fn library_list() -> Seq<char> {
    "workspace.metadata.traitenum.library"@
}

/// The path of a package's list of traits.
pub open spec fn trait_list() -> Seq<char> {
    "package.metadata.traitenum.trait"@
}

/// The libraries that a workspace manifest lists, each with its name and the
/// directories of its two packages. Succeeds when the list is there and every
/// entry names all three.
pub fn libraries_of(workspace_manifest: &toml::Value, manifest_path: &str) -> (r: Result<
    Vec<builder::LibraryMeta>,
    Errors,
>)
    ensures
        r is Ok == (items_at(tree_of(*workspace_manifest), library_list()) is Some && forall|i: int|
            0 <= i < items_at(tree_of(*workspace_manifest), library_list())->0.len() ==> names_library(
                #[trigger] items_at(tree_of(*workspace_manifest), library_list())->0[i],
            )),
        r is Ok ==> r->Ok_0@.len() == items_at(tree_of(*workspace_manifest), library_list())->0.len()
            && forall|i: int|
            0 <= i < r->Ok_0@.len() ==> started_from(
                #[trigger] r->Ok_0@[i],
                items_at(tree_of(*workspace_manifest), library_list())->0[i],
            ),
{
    let listed = match toml_array(
        "workspace.metadata.traitenum.library",
        workspace_manifest,
        "",
        manifest_path,
    ) {
        Ok(listed) => listed,
        Err(e) => {
            return Err(e);
        },
    };
    let mut libraries: Vec<builder::LibraryMeta> = Vec::new();
    let mut i: usize = 0;
    while i < listed.len()
        invariant
            0 <= i <= listed.len(),
            items_at(tree_of(*workspace_manifest), library_list()) == Some(trees(listed@)),
            libraries@.len() == i,
            forall|k: int| 0 <= k < i ==> names_library(#[trigger] trees(listed@)[k]),
            forall|k: int|
                0 <= k < i ==> started_from(#[trigger] libraries@[k], trees(listed@)[k]),
        decreases listed.len() - i,
    {
        let number = decimal(i);
        let context = String::from_str("workspace.metadata.traitenum.library[").concat(
            number.as_str(),
        ).concat("]");
        let item = &listed[i];
        assert(trees(listed@)[i as int] == tree_of(*item));
        let name = match toml_str("name", item, context.as_str(), manifest_path) {
            Ok(name) => name,
            Err(e) => {
                assert(!names_library(
                    items_at(tree_of(*workspace_manifest), library_list())->0[i as int],
                ));
                return Err(e);
            },
        };
        let lib_dir = match toml_str("lib-dir", item, context.as_str(), manifest_path) {
            Ok(dir) => dir,
            Err(e) => {
                assert(!names_library(
                    items_at(tree_of(*workspace_manifest), library_list())->0[i as int],
                ));
                return Err(e);
            },
        };
        let derive_dir = match toml_str("derive-dir", item, context.as_str(), manifest_path) {
            Ok(dir) => dir,
            Err(e) => {
                assert(!names_library(
                    items_at(tree_of(*workspace_manifest), library_list())->0[i as int],
                ));
                return Err(e);
            },
        };
        let library = builder::LibraryMeta {
            name: Some(String::from_str(name)),
            lib_name: None,
            derive_name: None,
            lib_dir: Some(String::from_str(lib_dir)),
            derive_dir: Some(String::from_str(derive_dir)),
            traits: Vec::new(),
        };
        libraries.push(library);
        i += 1;
    }
    Ok(libraries)
}

/// The context in which the entries of a list are named: the path of the
/// list with the position in brackets.
pub fn item_context(list: &str, position: usize) -> (r: String)
    ensures
        r@ == list@ + seq!['['] + decimal_text(position as nat) + seq![']'],
{
    proof {
        reveal_strlit("[");
        reveal_strlit("]");
    }
    let number = decimal(position);
    let r = String::from_str(list).concat("[").concat(number.as_str()).concat("]");
    assert(r@ =~= list@ + seq!['['] + decimal_text(position as nat) + seq![']']);
    r
}

/// The names of the traits that the manifest of a `lib` package lists, in
/// their order; none where the manifest has no such list.
pub open spec fn trait_names(manifest: Tree) -> Seq<Seq<char>> {
    match items_at(manifest, trait_list()) {
        Some(listed) => Seq::new(listed.len(), |j: int| text_at(listed[j], "name"@)->0),
        None => Seq::empty(),
    }
}

/// True of builders of traits that carry these names, one each and in order.
pub open spec fn carry_names(traits: Seq<builder::TraitMeta>, names: Seq<Seq<char>>) -> bool {
    traits.len() == names.len() && forall|j: int|
        0 <= j < traits.len() ==> text_of((#[trigger] traits[j]).name) == Some(names[j])
}

/// True of traits that have these names, one each and in order.
pub open spec fn have_names(
    traits: Seq<crate::traitenum::cargo::meta::TraitMeta>,
    names: Seq<Seq<char>>,
) -> bool {
    traits.len() == names.len() && forall|j: int|
        0 <= j < traits.len() ==> (#[trigger] traits[j]).name@ == names[j]
}

/// The traits that the manifest of a `lib` package lists. A manifest without
/// the list has no traits; a list with an entry that has no name is an error.
pub fn traits_of(manifest: &toml::Value, manifest_filepath: &str) -> (r: Result<
    Vec<builder::TraitMeta>,
    Errors,
>)
    ensures
        items_at(tree_of(*manifest), trait_list()) is None ==> r is Ok && r->Ok_0@.len() == 0,
        items_at(tree_of(*manifest), trait_list()) is Some ==> (r is Ok == forall|i: int|
            0 <= i < items_at(tree_of(*manifest), trait_list())->0.len() ==> text_at(
                #[trigger] items_at(tree_of(*manifest), trait_list())->0[i],
                "name"@,
            ) is Some),
        r is Ok && items_at(tree_of(*manifest), trait_list()) is Some ==> r->Ok_0@.len() == items_at(
            tree_of(*manifest),
            trait_list(),
        )->0.len() && forall|i: int|
            0 <= i < r->Ok_0@.len() ==> text_of((#[trigger] r->Ok_0@[i]).name) == text_at(
                items_at(tree_of(*manifest), trait_list())->0[i],
                "name"@,
            ),
        r is Ok ==> carry_names(r->Ok_0@, trait_names(tree_of(*manifest))),
{
    let mut traits: Vec<builder::TraitMeta> = Vec::new();
    match toml_array("package.metadata.traitenum.trait", manifest, "", manifest_filepath) {
        Err(_) => {},
        Ok(listed) => {
            let context = item_context("package.metadata.traitenum.trait", 0);
            let mut i: usize = 0;
            while i < listed.len()
                invariant
                    0 <= i <= listed.len(),
                    items_at(tree_of(*manifest), trait_list()) == Some(trees(listed@)),
                    traits@.len() == i,
                    forall|k: int|
                        0 <= k < i ==> text_at(#[trigger] trees(listed@)[k], "name"@) is Some,
                    forall|k: int|
                        0 <= k < i ==> text_of((#[trigger] traits@[k]).name) == text_at(
                            trees(listed@)[k],
                            "name"@,
                        ),
                decreases listed.len() - i,
            {
                assert(trees(listed@)[i as int] == tree_of(listed@[i as int]));
                let name = match toml_str("name", &listed[i], context.as_str(), manifest_filepath) {
                    Ok(name) => name,
                    Err(e) => {
                        return Err(e);
                    },
                };
                traits.push(builder::TraitMeta { name: Some(String::from_str(name)) });
                i += 1;
            }
        },
    }
    Ok(traits)
}

/// The name of the package that a manifest describes.
pub fn package_name(manifest: &toml::Value, manifest_filepath: &str) -> (r: Result<String, Errors>)
    ensures
        r is Ok == text_at(tree_of(*manifest), "package.name"@) is Some,
        r is Ok ==> r->Ok_0@ == text_at(tree_of(*manifest), "package.name"@)->0,
{
    match toml_str("package.name", manifest, "", manifest_filepath) {
        Ok(name) => Ok(String::from_str(name)),
        Err(e) => Err(e),
    }
}

/// The manifests of the two packages of a library, each with the path of its file.
pub struct PackageManifests {
    pub lib: toml::Value,
    pub lib_filepath: String,
    pub derive: toml::Value,
    pub derive_filepath: String,
}

/// True when the manifests of a library give what completes it: the names of
/// both packages and, where the `lib` package lists traits, a name for each.
pub open spec fn completes(manifests: PackageManifests) -> bool {
    &&& text_at(tree_of(manifests.lib), "package.name"@) is Some
    &&& text_at(tree_of(manifests.derive), "package.name"@) is Some
    &&& items_at(tree_of(manifests.lib), trait_list()) is Some ==> forall|i: int|
        0 <= i < items_at(tree_of(manifests.lib), trait_list())->0.len() ==> text_at(
            #[trigger] items_at(tree_of(manifests.lib), trait_list())->0[i],
            "name"@,
        ) is Some
}

/// Completes a library with what the manifests of its two packages say: the
/// names of the packages and the traits of the `lib` package.
pub fn complete_library(library: builder::LibraryMeta, manifests: &PackageManifests) -> (r: Result<
    builder::LibraryMeta,
    Errors,
>)
    requires
        library.traits@.len() == 0,
    ensures
        r is Ok == completes(*manifests),
        r is Ok ==> {
            &&& r->Ok_0.name == library.name
            &&& r->Ok_0.lib_dir == library.lib_dir
            &&& r->Ok_0.derive_dir == library.derive_dir
            &&& text_of(r->Ok_0.lib_name) == text_at(tree_of(manifests.lib), "package.name"@)
            &&& text_of(r->Ok_0.derive_name) == text_at(tree_of(manifests.derive), "package.name"@)
            &&& carry_names(r->Ok_0.traits@, trait_names(tree_of(manifests.lib)))
            &&& forall|i: int|
                0 <= i < r->Ok_0.traits@.len() ==> (#[trigger] r->Ok_0.traits@[i]).complete()
        },
{
    let lib_name = match package_name(&manifests.lib, manifests.lib_filepath.as_str()) {
        Ok(name) => name,
        Err(e) => {
            return Err(e);
        },
    };
    let traits = match traits_of(&manifests.lib, manifests.lib_filepath.as_str()) {
        Ok(traits) => traits,
        Err(e) => {
            return Err(e);
        },
    };
    let derive_name = match package_name(&manifests.derive, manifests.derive_filepath.as_str()) {
        Ok(name) => name,
        Err(e) => {
            return Err(e);
        },
    };
    let ghost listed = items_at(tree_of(manifests.lib), trait_list());
    assert forall|i: int| 0 <= i < traits@.len() implies (#[trigger] traits@[i]).complete() by {
        if listed is Some {
            assert(text_of(traits@[i].name) == text_at(listed->0[i], "name"@));
        }
    }
    Ok(
        builder::LibraryMeta {
            name: library.name,
            lib_name: Some(lib_name),
            derive_name: Some(derive_name),
            lib_dir: library.lib_dir,
            derive_dir: library.derive_dir,
            traits,
        },
    )
}

/// True when a workspace manifest lists its libraries and every entry of the
/// list names the library and the directories of its two packages.
pub open spec fn lists_libraries(workspace: Tree) -> bool {
    items_at(workspace, library_list()) is Some && forall|i: int|
        0 <= i < items_at(workspace, library_list())->0.len() ==> names_library(
            #[trigger] items_at(workspace, library_list())->0[i],
        )
}

/// True when the layout of a workspace can be built: the workspace lists its
/// libraries, and for each of them manifests are given that complete it.
pub open spec fn lays_out(workspace: Tree, packages: Seq<PackageManifests>) -> bool {
    &&& lists_libraries(workspace)
    &&& items_at(workspace, library_list())->0.len() <= packages.len()
    &&& forall|i: int|
        0 <= i < items_at(workspace, library_list())->0.len() ==> completes(#[trigger] packages[i])
}

/// True of the library that is laid out from an entry of the workspace's list
/// and from the manifests of its two packages.
pub open spec fn laid_out(
    made: crate::traitenum::cargo::meta::LibraryMeta,
    item: Tree,
    manifests: PackageManifests,
) -> bool {
    &&& Some(made.name@) == text_at(item, "name"@)
    &&& Some(made.lib_dir@) == text_at(item, "lib-dir"@)
    &&& Some(made.derive_dir@) == text_at(item, "derive-dir"@)
    &&& Some(made.lib_name@) == text_at(tree_of(manifests.lib), "package.name"@)
    &&& Some(made.derive_name@) == text_at(tree_of(manifests.derive), "package.name"@)
    &&& have_names(made.traits@, trait_names(tree_of(manifests.lib)))
}

/// The file that is reported as not found for a library whose manifests are
/// not given: the manifest of its `lib` package.
pub open spec fn missing_manifest(workspace_path: Seq<char>, item: Tree) -> Seq<char> {
    crate::path::joined(
        crate::path::joined(workspace_path, text_at(item, "lib-dir"@)->0),
        "Cargo.toml"@,
    )
}

/// The layout of a workspace from its manifest and from the manifests of the
/// packages of its libraries, given in the order in which the workspace lists
/// the libraries.
///
/// The layout is built when the workspace lists its libraries and the
/// manifests given complete each of them; it then has the path given, and a
/// library for each entry of the list, with the names and directories of the
/// entry, the package names of the manifests, and the traits that the `lib`
/// manifest lists. The libraries are taken in their order, and the first that
/// cannot be completed ends the work: one whose manifests are not given is
/// reported as one whose manifest cannot be found.
pub fn build(
    workspace_path: &str,
    workspace_manifest: &toml::Value,
    manifest_path: &str,
    packages: &Vec<PackageManifests>,
) -> (r: Result<WorkspaceMeta, Errors>)
    ensures
        r is Ok == lays_out(tree_of(*workspace_manifest), packages@),
        r is Ok ==> r->Ok_0.path@ == workspace_path@ && r->Ok_0.libraries@.len() == items_at(
            tree_of(*workspace_manifest),
            library_list(),
        )->0.len(),
        r is Ok ==> forall|i: int|
            0 <= i < r->Ok_0.libraries@.len() ==> laid_out(
                #[trigger] r->Ok_0.libraries@[i],
                items_at(tree_of(*workspace_manifest), library_list())->0[i],
                packages@[i],
            ),
        lists_libraries(tree_of(*workspace_manifest)) && packages@.len() < items_at(
            tree_of(*workspace_manifest),
            library_list(),
        )->0.len() && (forall|i: int| 0 <= i < packages@.len() ==> completes(#[trigger] packages@[i]))
            ==> (r matches Err(Errors::NoCargoManifestExists(file)) && file@ == missing_manifest(
            workspace_path@,
            items_at(tree_of(*workspace_manifest), library_list())->0[packages@.len() as int],
        )),
{
    let mut started = match libraries_of(workspace_manifest, manifest_path) {
        Ok(started) => started,
        Err(e) => {
            return Err(e);
        },
    };
    let ghost listed = items_at(tree_of(*workspace_manifest), library_list())->0;
    let ghost all = started@;
    let mut workspace = builder::WorkspaceMeta::new();
    let mut complete: Vec<builder::LibraryMeta> = Vec::new();
    while started.len() > 0
        invariant
            lists_libraries(tree_of(*workspace_manifest)),
            listed == items_at(tree_of(*workspace_manifest), library_list())->0,
            all.len() == listed.len(),
            complete@.len() + started@.len() == all.len(),
            started@ == all.skip(complete@.len() as int),
            complete@.len() <= packages@.len(),
            forall|k: int| 0 <= k < all.len() ==> started_from(#[trigger] all[k], listed[k]),
            forall|k: int| 0 <= k < complete@.len() ==> completes(#[trigger] packages@[k]),
            forall|k: int| 0 <= k < complete@.len() ==> (#[trigger] complete@[k]).complete(),
            forall|k: int|
                0 <= k < complete@.len() ==> {
                    let made = #[trigger] complete@[k];
                    &&& text_of(made.name) == text_at(listed[k], "name"@)
                    &&& text_of(made.lib_dir) == text_at(listed[k], "lib-dir"@)
                    &&& text_of(made.derive_dir) == text_at(listed[k], "derive-dir"@)
                    &&& text_of(made.lib_name) == text_at(tree_of(packages@[k].lib), "package.name"@)
                    &&& text_of(made.derive_name) == text_at(tree_of(packages@[k].derive), "package.name"@)
                    &&& carry_names(made.traits@, trait_names(tree_of(packages@[k].lib)))
                },
        decreases started.len(),
    {
        let ghost done = complete@.len() as int;
        let position = complete.len();
        let library = started.remove(0);
        assert(library == all[done]);
        assert(started@ =~= all.skip(done + 1));
        assert(started_from(all[done], listed[done]));
        assert(names_library(listed[done]));
        if position >= packages.len() {
            let dir = match &library.lib_dir {
                Some(dir) => crate::path::join(workspace_path, dir.as_str()),
                None => String::from_str(workspace_path),
            };
            return Err(Errors::NoCargoManifestExists(crate::path::join(dir.as_str(), "Cargo.toml")));
        }
        match complete_library(library, &packages[position]) {
            Ok(library) => {
                assert(library.complete());
                complete.push(library);
            },
            Err(e) => {
                assert(!completes(packages@[done]));
                return Err(e);
            },
        }
    }
    workspace.path = Some(String::from_str(workspace_path));
    workspace.libraries = complete;
    let ghost builder_view = workspace;
    let made = workspace.build();
    proof {
        assert forall|i: int| 0 <= i < made.libraries@.len() implies laid_out(
            #[trigger] made.libraries@[i],
            listed[i],
            packages@[i],
        ) by {
            let from = builder_view.libraries@[i];
            let lib = made.libraries@[i];
            assert(from.builds(lib));
            assert(from.complete());
            let names = trait_names(tree_of(packages@[i].lib));
            assert(carry_names(from.traits@, names));
            assert forall|j: int| 0 <= j < lib.traits@.len() implies (#[trigger] lib.traits@[j]).name@
                == names[j] by {
                assert(from.traits@[j].builds(lib.traits@[j]));
                assert(text_of(from.traits@[j].name) == Some(names[j]));
            }
        }
    }
    Ok(made)
}

/// Makes an empty table with `toml::Table::new`. Trusted: it holds no entry.
#[verifier::external_body]
fn empty_table() -> (r: toml::Value)
    ensures
        tree_of(r) == Tree::Table(Map::<Seq<char>, Tree>::empty()),
{
    toml::Value::Table(toml::Table::new())
}

/// Makes a string value. Trusted: it holds the text.
#[verifier::external_body]
fn text_value(s: &str) -> (r: toml::Value)
    ensures
        tree_of(r) == Tree::Text(s@),
{
    toml::Value::String(s.to_owned())
}

/// Makes an array of one item with `Vec`. Trusted: it holds the item alone.
#[verifier::external_body]
fn array_of(item: toml::Value) -> (r: toml::Value)
    ensures
        tree_of(r) == Tree::Array(seq![tree_of(item)]),
{
    toml::Value::Array(vec![item])
}

/// Files a value under a key of a table with `toml::map::Map::insert`.
/// Trusted: the table holds afterwards what it held, but the value under
/// the key.
#[verifier::external_body]
fn put_entry(table: &mut toml::Value, key: &str, value: toml::Value)
    requires
        tree_of(*old(table)) is Table,
    ensures
        tree_of(*final(table)) == Tree::Table(
            tree_of(*old(table))->Table_0.insert(key@, tree_of(value)),
        ),
{
    if let toml::Value::Table(entries) = table {
        entries.insert(key.to_owned(), value);
    }
}

/// Takes what a table holds under a key out of it with
/// `toml::map::Map::remove`. Trusted: what comes back is what the table held
/// under the key, and the table holds the rest.
#[verifier::external_body]
fn take_entry(table: &mut toml::Value, key: &str) -> (r: Option<toml::Value>)
    requires
        tree_of(*old(table)) is Table,
    ensures
        r is Some == entry_of(tree_of(*old(table)), key@) is Some,
        r is Some ==> tree_of(r->0) == entry_of(tree_of(*old(table)), key@)->0,
        tree_of(*final(table)) == Tree::Table(tree_of(*old(table))->Table_0.remove(key@)),
{
    match table {
        toml::Value::Table(entries) => entries.remove(key),
        _ => None,
    }
}

/// Adds an item to an array with `Vec::push`. Trusted: the array holds
/// afterwards what it held and then the item.
#[verifier::external_body]
fn push_item(array: &mut toml::Value, item: toml::Value)
    requires
        tree_of(*old(array)) is Array,
    ensures
        tree_of(*final(array)) == Tree::Array(tree_of(*old(array))->Array_0.push(tree_of(item))),
{
    if let toml::Value::Array(items) = array {
        items.push(item);
    }
}

/// What a tree holds after an item is added to the array at a path of keys.
/// Tables that are missing on the way are made, and so is the array. The way
/// is barred, and nothing comes back, where the tree or a value on the way is
/// no table, or where something else than an array stands at the end.
pub open spec fn appended(tree: Tree, keys: Seq<Seq<char>>, item: Tree) -> Option<Tree>
    decreases keys.len(),
{
    if keys.len() == 0 {
        None
    } else {
        match tree {
            Tree::Table(entries) => {
                let key = keys.first();
                let held = entry_of(tree, key);
                let child = if keys.len() == 1 {
                    match held {
                        None => Some(Tree::Array(seq![item])),
                        Some(Tree::Array(listed)) => Some(Tree::Array(listed.push(item))),
                        Some(_) => None,
                    }
                } else {
                    match held {
                        None => appended(
                            Tree::Table(Map::<Seq<char>, Tree>::empty()),
                            keys.drop_first(),
                            item,
                        ),
                        Some(Tree::Table(inner)) => appended(
                            Tree::Table(inner),
                            keys.drop_first(),
                            item,
                        ),
                        Some(_) => None,
                    }
                };
                match child {
                    Some(made) => Some(Tree::Table(entries.insert(key, made))),
                    None => None,
                }
            },
            _ => None,
        }
    }
}

/// Adds an item to the array that the keys from place `from` on lead to.
fn append_item(value: toml::Value, keys: &Vec<String>, from: usize, item: toml::Value) -> (r:
    Option<toml::Value>)
    requires
        from < keys@.len(),
    ensures
        match appended(tree_of(value), texts(keys@).skip(from as int), tree_of(item)) {
            Some(made) => r is Some && tree_of(r->0) == made,
            None => r is None,
        },
    decreases keys@.len() - from,
{
    let ghost rest = texts(keys@).skip(from as int);
    assert(rest.first() == keys@[from as int]@);
    assert(rest.drop_first() =~= texts(keys@).skip(from + 1));
    assert(rest.len() == keys@.len() - from);
    let mut value = value;
    if !table(&value) {
        return None;
    }
    let ghost entries = tree_of(value)->Table_0;
    let key = keys[from].as_str();
    let held = take_entry(&mut value, key);
    let count = keys.len();
    let child = if from + 1 == count {
        match held {
            None => Some(array_of(item)),
            Some(listed) => {
                let mut listed = listed;
                if items(&listed).is_some() {
                    push_item(&mut listed, item);
                    Some(listed)
                } else {
                    None
                }
            },
        }
    } else {
        match held {
            None => append_item(empty_table(), keys, from + 1, item),
            Some(inner) => {
                if table(&inner) {
                    append_item(inner, keys, from + 1, item)
                } else {
                    None
                }
            },
        }
    };
    match child {
        Some(made) => {
            put_entry(&mut value, key, made);
            assert(entries.remove(key@).insert(key@, tree_of(made)) =~= entries.insert(
                key@,
                tree_of(made),
            ));
            Some(value)
        },
        None => None,
    }
}

/// Adds an item to the array at a dotted path of a manifest. Tables that are
/// missing on the way are made, and so is the array. Where the way is barred
/// the error names the path in its context and the manifest.
pub fn toml_append(
    path: &str,
    toml: toml::Value,
    item: toml::Value,
    context: &str,
    cargo_manifest_filepath: &str,
) -> (r: Result<toml::Value, Errors>)
    ensures
        match appended(tree_of(toml), parts_at(path@, '.'), tree_of(item)) {
            Some(made) => r is Ok && tree_of(r->Ok_0) == made,
            None => r matches Err(Errors::InvalidCargoManifestKey(p, f)) && p@ == in_context(
                context@,
                path@,
            ) && f@ == cargo_manifest_filepath@,
        },
{
    let keys = split_at_char(path, '.');
    proof {
        crate::text::lemma_parts_not_empty(path@, '.', 0, Seq::empty());
        assert(texts(keys@).skip(0) =~= texts(keys@));
        assert(texts(keys@).len() == keys@.len());
    }
    match append_item(toml, &keys, 0, item) {
        Some(made) => Ok(made),
        None => {
            proof {
                reveal_strlit(".");
            }
            let named = String::from_str(context).concat(".").concat(path);
            assert(named@ =~= in_context(context@, path@));
            Err(Errors::InvalidCargoManifestKey(named, String::from_str(cargo_manifest_filepath)))
        },
    }
}

/// What a manifest lists for a trait: a table with the name of the trait.
pub open spec fn trait_entry(name: Seq<char>) -> Tree {
    Tree::Table(Map::<Seq<char>, Tree>::empty().insert("name"@, Tree::Text(name)))
}

/// What a workspace lists for a library: a table with the name of the
/// library and the directories of its two packages.
pub open spec fn library_entry(name: Seq<char>, lib_dir: Seq<char>, derive_dir: Seq<char>) -> Tree {
    Tree::Table(
        Map::<Seq<char>, Tree>::empty().insert("derive-dir"@, Tree::Text(derive_dir)).insert(
            "lib-dir"@,
            Tree::Text(lib_dir),
        ).insert("name"@, Tree::Text(name)),
    )
}

/// Lists a trait in the manifest of a `lib` package.
pub fn add_trait_entry(manifest: toml::Value, trait_name: &str, manifest_filepath: &str) -> (r:
    Result<toml::Value, Errors>)
    ensures
        match appended(tree_of(manifest), parts_at(trait_list(), '.'), trait_entry(trait_name@)) {
            Some(made) => r is Ok && tree_of(r->Ok_0) == made,
            None => r matches Err(Errors::InvalidCargoManifestKey(p, f)) && p@ == in_context(
                Seq::empty(),
                trait_list(),
            ) && f@ == manifest_filepath@,
        },
{
    let mut entry = empty_table();
    put_entry(&mut entry, "name", text_value(trait_name));
    proof {
        reveal_strlit("");
    }
    assert(""@ =~= Seq::<char>::empty());
    toml_append("package.metadata.traitenum.trait", manifest, entry, "", manifest_filepath)
}

/// The path of the workspace's list of members.
pub open spec fn member_list() -> Seq<char> {
    "workspace.members"@
}

/// Lists a library in the manifest of a workspace: the directories of its two
/// packages among the members, first that of `lib`, and an entry among the
/// libraries.
pub fn add_library_entry(
    manifest: toml::Value,
    library_name: &str,
    lib_dir: &str,
    derive_dir: &str,
    manifest_filepath: &str,
) -> (r: Result<toml::Value, Errors>)
    ensures
        r is Ok ==> {
            let first = appended(tree_of(manifest), parts_at(member_list(), '.'), Tree::Text(lib_dir@));
            let second = appended(first->0, parts_at(member_list(), '.'), Tree::Text(derive_dir@));
            let third = appended(
                second->0,
                parts_at(library_list(), '.'),
                library_entry(library_name@, lib_dir@, derive_dir@),
            );
            first is Some && second is Some && third is Some && tree_of(r->Ok_0) == third->0
        },
        r is Ok == ({
            let first = appended(tree_of(manifest), parts_at(member_list(), '.'), Tree::Text(lib_dir@));
            first is Some && appended(
                first->0,
                parts_at(member_list(), '.'),
                Tree::Text(derive_dir@),
            ) is Some && appended(
                appended(first->0, parts_at(member_list(), '.'), Tree::Text(derive_dir@))->0,
                parts_at(library_list(), '.'),
                library_entry(library_name@, lib_dir@, derive_dir@),
            ) is Some
        }),
{
    let with_lib = match toml_append(
        "workspace.members",
        manifest,
        text_value(lib_dir),
        "",
        manifest_filepath,
    ) {
        Ok(made) => made,
        Err(e) => {
            return Err(e);
        },
    };
    let with_derive = match toml_append(
        "workspace.members",
        with_lib,
        text_value(derive_dir),
        "",
        manifest_filepath,
    ) {
        Ok(made) => made,
        Err(e) => {
            return Err(e);
        },
    };
    let mut entry = empty_table();
    put_entry(&mut entry, "derive-dir", text_value(derive_dir));
    put_entry(&mut entry, "lib-dir", text_value(lib_dir));
    put_entry(&mut entry, "name", text_value(library_name));
    toml_append(
        "workspace.metadata.traitenum.library",
        with_derive,
        entry,
        "",
        manifest_filepath,
    )
}

} // verus!
