//! What the commands of the addon work out before they touch anything:
//! the arguments as they stand once the defaults are filled in, and the part of
//! a tool's complaint that is worth repeating.

use vstd::prelude::*;
use crate::path::{join, joined};
use crate::text::{
    first_line, has_char, replace_all, replaced, same, text_of, until_line_break,
};
use crate::traitenum::cargo::meta::{LibraryMeta, WorkspaceMeta};
use crate::traitenum::model::StringPreset;
use crate::traitenum::cargo::Errors;
use crate::traitenum::cargo::cli::{InitWorkspaceCommand, NewWorkspaceCommand, WorkspaceCommand};

verus! {

/// The first line of a tool's complaint, without the words `error: `.
pub open spec fn quoted(errmsg: Seq<char>) -> Seq<char> {
    first_line(replaced(errmsg, "error: "@, Seq::empty()))
}

pub fn quote_error(errmsg: &str) -> (r: String)
    ensures
        r@ == quoted(errmsg@),
{
    proof {
        reveal_strlit("error: ");
        reveal_strlit("");
    }
    assert(""@ =~= Seq::<char>::empty());
    let cleaned = replace_all(errmsg, "error: ", "");
    until_line_break(cleaned.as_str())
}

/// The path of a workspace: the path given, under the current directory
/// where it does not start at the root; and the name under the current
/// directory where no path is given.
pub open spec fn workspace_path_of(
    given: Option<Seq<char>>,
    name: Seq<char>,
    current_dir: Seq<char>,
) -> Seq<char> {
    match given {
        Some(path) => joined(current_dir, path),
        None => joined(current_dir, name),
    }
}

/// The name of a `derive` package where none is given: that of the library
/// with `-derive` at its end.
pub open spec fn derive_name_of(name: Seq<char>) -> Seq<char> {
    name + "-derive"@
}

fn resolve_path(given: &Option<String>, name: &str, current_dir: &str) -> (r: String)
    ensures
        r@ == workspace_path_of(text_of(*given), name@, current_dir@),
{
    match given {
        Some(path) => join(current_dir, path.as_str()),
        None => join(current_dir, name),
    }
}

fn resolve_derive_name(given: Option<String>, name: &str) -> (r: String)
    ensures
        r@ == match given {
            Some(derive_name) => derive_name@,
            None => derive_name_of(name@),
        },
{
    match given {
        Some(derive_name) => derive_name,
        None => String::from_str(name).concat("-derive"),
    }
}

/// The arguments of `new` with the defaults filled in. A name that holds a
/// path separator is refused: a path was meant, and has its own option.
pub fn resolve_new_workspace(args: NewWorkspaceCommand, current_dir: &str) -> (r: Result<
    NewWorkspaceCommand,
    Errors,
>)
    ensures
        r is Err == args.workspace_name@.contains('/'),
        r matches Err(e) ==> (e matches Errors::InvalidArgument(argument, advice, value)
            && argument@ == "workspace-name"@ && advice@ == "Try `--workspace-path` instead"@
            && value@ == args.workspace_name@),
        r matches Ok(resolved) ==> {
            &&& resolved.workspace_name@ == args.workspace_name@
            &&& text_of(resolved.library.workspace_path) == Some(
                workspace_path_of(
                    text_of(args.library.workspace_path),
                    args.workspace_name@,
                    current_dir@,
                ),
            )
            &&& text_of(resolved.library.lib_name) == Some(
                match args.library.lib_name {
                    Some(lib_name) => lib_name@,
                    None => args.workspace_name@,
                },
            )
            &&& text_of(resolved.library.derive_name) == Some(
                match args.library.derive_name {
                    Some(derive_name) => derive_name@,
                    None => derive_name_of(args.workspace_name@),
                },
            )
            &&& resolved.library.lib_dir == args.library.lib_dir
            &&& resolved.library.derive_dir == args.library.derive_dir
        },
{
    if has_char(args.workspace_name.as_str(), '/') {
        return Err(
            Errors::InvalidArgument(
                String::from_str("workspace-name"),
                String::from_str("Try `--workspace-path` instead"),
                args.workspace_name,
            ),
        );
    }
    let workspace_path = resolve_path(
        &args.library.workspace_path,
        args.workspace_name.as_str(),
        current_dir,
    );
    let lib_name = match args.library.lib_name {
        Some(lib_name) => lib_name,
        None => args.workspace_name.clone(),
    };
    let derive_name = resolve_derive_name(args.library.derive_name, args.workspace_name.as_str());
    Ok(
        NewWorkspaceCommand {
            workspace_name: args.workspace_name,
            library: WorkspaceCommand {
                workspace_path: Some(workspace_path),
                lib_name: Some(lib_name),
                derive_name: Some(derive_name),
                lib_dir: args.library.lib_dir,
                derive_dir: args.library.derive_dir,
            },
        },
    )
}

/// The arguments of `init` with the defaults filled in, and whether the user
/// is to be told that the name of the library is the one that counts: that
/// is so where `--lib-name` was given beside it.
pub fn resolve_init_workspace(args: InitWorkspaceCommand, current_dir: &str) -> (r: (
    InitWorkspaceCommand,
    bool,
))
    ensures
        r.1 == args.module.lib_name is Some,
        r.0.library_name@ == args.library_name@,
        text_of(r.0.module.workspace_path) == Some(
            workspace_path_of(
                text_of(args.module.workspace_path),
                args.library_name@,
                current_dir@,
            ),
        ),
        text_of(r.0.module.lib_name) == Some(
            match args.module.lib_name {
                Some(lib_name) => lib_name@,
                None => args.library_name@,
            },
        ),
        text_of(r.0.module.derive_name) == Some(
            match args.module.derive_name {
                Some(derive_name) => derive_name@,
                None => derive_name_of(args.library_name@),
            },
        ),
        r.0.module.lib_dir == args.module.lib_dir,
        r.0.module.derive_dir == args.module.derive_dir,
{
    let warn = args.module.lib_name.is_some();
    let workspace_path = resolve_path(
        &args.module.workspace_path,
        args.library_name.as_str(),
        current_dir,
    );
    let lib_name = match args.module.lib_name {
        Some(lib_name) => lib_name,
        None => args.library_name.clone(),
    };
    let derive_name = resolve_derive_name(args.module.derive_name, args.library_name.as_str());
    (
        InitWorkspaceCommand {
            library_name: args.library_name,
            module: WorkspaceCommand {
                workspace_path: Some(workspace_path),
                lib_name: Some(lib_name),
                derive_name: Some(derive_name),
                lib_dir: args.module.lib_dir,
                derive_dir: args.module.derive_dir,
            },
        },
        warn,
    )
}

/// True when the text at place `i` is the first of a list that is `name`.
pub open spec fn first_named(names: Seq<Seq<char>>, name: Seq<char>, i: int) -> bool {
    0 <= i < names.len() && names[i] == name && forall|j: int|
        0 <= j < i ==> #[trigger] names[j] != name
}

/// The names of the libraries of a workspace, in their order.
pub open spec fn library_names(workspace: WorkspaceMeta) -> Seq<Seq<char>> {
    Seq::new(workspace.libraries@.len(), |i: int| workspace.libraries@[i].name@)
}

/// The names of the traits of a library, in their order.
pub open spec fn trait_names(library: LibraryMeta) -> Seq<Seq<char>> {
    Seq::new(library.traits@.len(), |i: int| library.traits@[i].name@)
}

/// What is said of a workspace that lists no library.
pub open spec fn no_libraries_text() -> Seq<char> {
    "No traitenum libraries found"@
}

/// The library that a command works on, by its place in the workspace. A
/// workspace with one library needs no name. With several, the name must be
/// given and is looked up; the first library of that name is taken. A
/// workspace without a library is misconfigured.
pub fn select_library(workspace: &WorkspaceMeta, library_name: &Option<String>) -> (r: Result<
    usize,
    Errors,
>)
    ensures
        workspace.libraries@.len() == 0 ==> (r matches Err(Errors::MisconfiguredCargoMetadata(m))
            && m@ == no_libraries_text()),
        workspace.libraries@.len() == 1 ==> r == Ok::<usize, Errors>(0),
        workspace.libraries@.len() > 1 && library_name is None ==> r == Err::<usize, Errors>(
            Errors::AmbiguousLibrary,
        ),
        workspace.libraries@.len() > 1 && library_name is Some ==> match r {
            Ok(i) => first_named(library_names(*workspace), library_name->0@, i as int),
            Err(e) => (e matches Errors::LibraryNotFound(n) && n@ == library_name->0@) && forall|
                i: int,
            |
                0 <= i < workspace.libraries@.len() ==> #[trigger] library_names(*workspace)[i]
                    != library_name->0@,
        },
{
    let count = workspace.libraries.len();
    if count == 1 {
        Ok(0)
    } else if count > 1 {
        match library_name {
            None => Err(Errors::AmbiguousLibrary),
            Some(name) => {
                let mut i: usize = 0;
                while i < count
                    invariant
                        0 <= i <= count,
                        count > 1,
                        count == workspace.libraries@.len(),
                        *library_name == Some(*name),
                        forall|j: int|
                            0 <= j < i ==> #[trigger] library_names(*workspace)[j] != name@,
                    decreases count - i,
                {
                    if same(workspace.libraries[i].name(), name.as_str()) {
                        assert(library_names(*workspace)[i as int] == name@);
                        return Ok(i);
                    }
                    assert(library_names(*workspace)[i as int] != name@);
                    i += 1;
                }
                Err(Errors::LibraryNotFound(name.clone()))
            },
        }
    } else {
        Err(Errors::MisconfiguredCargoMetadata(String::from_str("No traitenum libraries found")))
    }
}

/// Where a library lists a trait of that name: the place of the first one.
pub fn find_trait(library: &LibraryMeta, trait_name: &str) -> (r: Option<usize>)
    ensures
        match r {
            Some(i) => first_named(trait_names(*library), trait_name@, i as int),
            None => forall|i: int|
                0 <= i < library.traits@.len() ==> #[trigger] trait_names(*library)[i]
                    != trait_name@,
        },
{
    let count = library.traits.len();
    let mut i: usize = 0;
    while i < count
        invariant
            0 <= i <= count,
            count == library.traits@.len(),
            forall|j: int| 0 <= j < i ==> #[trigger] trait_names(*library)[j] != trait_name@,
        decreases count - i,
    {
        if same(library.traits[i].name(), trait_name) {
            assert(trait_names(*library)[i as int] == trait_name@);
            return Some(i);
        }
        assert(trait_names(*library)[i as int] != trait_name@);
        i += 1;
    }
    None
}

/// Accepts the name of a trait that is to be added: the library must not
/// list a trait of that name yet.
pub fn check_new_trait(library: &LibraryMeta, trait_name: &str) -> (r: Result<(), Errors>)
    ensures
        r is Ok == (forall|i: int|
            0 <= i < library.traits@.len() ==> #[trigger] trait_names(*library)[i] != trait_name@),
        r matches Err(e) ==> (e matches Errors::DuplicateTrait(t, l) && t@ == trait_name@ && l@
            == library.name@),
{
    match find_trait(library, trait_name) {
        Some(i) => {
            assert(trait_names(*library)[i as int] == trait_name@);
            Err(Errors::DuplicateTrait(String::from_str(trait_name), library.name.clone()))
        },
        None => Ok(()),
    }
}

/// Finds the trait that is to be removed: the library must list it.
pub fn check_known_trait(library: &LibraryMeta, trait_name: &str) -> (r: Result<usize, Errors>)
    ensures
        match r {
            Ok(i) => first_named(trait_names(*library), trait_name@, i as int),
            Err(e) => (e matches Errors::UnknownTrait(t, l) && t@ == trait_name@ && l@
                == library.name@) && forall|i: int|
                0 <= i < library.traits@.len() ==> #[trigger] trait_names(*library)[i]
                    != trait_name@,
        },
{
    match find_trait(library, trait_name) {
        Some(i) => Ok(i),
        None => Err(Errors::UnknownTrait(String::from_str(trait_name), library.name.clone())),
    }
}

/// The name of the trait that a new workspace starts with.
pub const EXAMPLE_TRAIT_NAME: &'static str = "Example";

/// The manifest of a new workspace. `%{LIBRARY_NAME}%`, `%{LIB_DIR}%` and
/// `%{DERIVE_DIR}%` stand for what is filled in.
pub const WORKSPACE_MANIFEST_TEMPLATE: &'static str =
    "[workspace]\nresolver = \"2\"\nmembers = [ \"%{LIB_DIR}%\", \"%{DERIVE_DIR}%\" ]\n\n[[workspace.metadata.traitenum.library]]\nname = \"%{LIBRARY_NAME}%\"\nlib-dir = \"%{LIB_DIR}%\"\nderive-dir = \"%{DERIVE_DIR}%\"\n";

/// The manifest of a new `lib` package. `%{LIB_NAME}%` stands for its name.
pub const LIB_MANIFEST_TEMPLATE: &'static str =
    "[package]\nname = \"%{LIB_NAME}%\"\nversion = \"0.1.0\"\nedition = \"2021\"\n\n[package.metadata.traitenum]\npurpose = \"lib\"\n";

/// The source of a new `lib` package.
pub const LIB_SRC_TEMPLATE: &'static str = "use traitenum::enumtrait;\n";

/// The manifest of a new `derive` package. `%{DERIVE_NAME}%` stands for its name.
pub const DERIVE_MANIFEST_TEMPLATE: &'static str =
    "[package]\nname = \"%{DERIVE_NAME}%\"\nversion = \"0.1.0\"\nedition = \"2021\"\n\n[lib]\nproc-macro = true\n\n[package.metadata.traitenum]\npurpose = \"derive\"\n";

/// The source of a new `derive` package. `%{LIB_CRATE_NAME}%` and
/// `%{DERIVE_CRATE_NAME}%` stand for the names of the two crates.
pub const DERIVE_SRC_TEMPLATE: &'static str =
    "traitenum_lib::gen_require!(%{LIB_CRATE_NAME}%, %{DERIVE_CRATE_NAME}%);\n";

/// The manifest of a new workspace with its library filled in: first the
/// name of the library, then the directory of the `lib` package, then that of
/// the `derive` package.
pub fn workspace_manifest(library_name: &str, lib_dir: &str, derive_dir: &str) -> (r: String)
    ensures
        r@ == replaced(
            replaced(
                replaced(WORKSPACE_MANIFEST_TEMPLATE@, "%{LIBRARY_NAME}%"@, library_name@),
                "%{LIB_DIR}%"@,
                lib_dir@,
            ),
            "%{DERIVE_DIR}%"@,
            derive_dir@,
        ),
{
    proof {
        reveal_strlit("%{LIBRARY_NAME}%");
        reveal_strlit("%{LIB_DIR}%");
        reveal_strlit("%{DERIVE_DIR}%");
    }
    let named = replace_all(WORKSPACE_MANIFEST_TEMPLATE, "%{LIBRARY_NAME}%", library_name);
    let with_lib = replace_all(named.as_str(), "%{LIB_DIR}%", lib_dir);
    replace_all(with_lib.as_str(), "%{DERIVE_DIR}%", derive_dir)
}

/// The manifest of a new `lib` package with its name filled in.
pub fn lib_manifest(lib_name: &str) -> (r: String)
    ensures
        r@ == replaced(LIB_MANIFEST_TEMPLATE@, "%{LIB_NAME}%"@, lib_name@),
{
    proof {
        reveal_strlit("%{LIB_NAME}%");
    }
    replace_all(LIB_MANIFEST_TEMPLATE, "%{LIB_NAME}%", lib_name)
}

/// The manifest of a new `derive` package with its name filled in.
pub fn derive_manifest(derive_name: &str) -> (r: String)
    ensures
        r@ == replaced(DERIVE_MANIFEST_TEMPLATE@, "%{DERIVE_NAME}%"@, derive_name@),
{
    proof {
        reveal_strlit("%{DERIVE_NAME}%");
    }
    replace_all(DERIVE_MANIFEST_TEMPLATE, "%{DERIVE_NAME}%", derive_name)
}

/// The name of the crate of a package: the name of the package in snake case.
pub open spec fn crate_name_of(package_name: Seq<char>) -> Seq<char> {
    StringPreset::Snake.spec_convert(package_name)
}

/// The source of a new `derive` package with the names of the two crates
/// filled in, each the name of its package in snake case.
pub fn derive_src(lib_name: &str, derive_name: &str) -> (r: String)
    ensures
        r@ == replaced(
            replaced(DERIVE_SRC_TEMPLATE@, "%{LIB_CRATE_NAME}%"@, crate_name_of(lib_name@)),
            "%{DERIVE_CRATE_NAME}%"@,
            crate_name_of(derive_name@),
        ),
{
    proof {
        reveal_strlit("%{LIB_CRATE_NAME}%");
        reveal_strlit("%{DERIVE_CRATE_NAME}%");
    }
    let lib_crate = StringPreset::Snake.convert(lib_name);
    let derive_crate = StringPreset::Snake.convert(derive_name);
    let with_lib = replace_all(DERIVE_SRC_TEMPLATE, "%{LIB_CRATE_NAME}%", lib_crate.as_str());
    replace_all(with_lib.as_str(), "%{DERIVE_CRATE_NAME}%", derive_crate.as_str())
}

/// The name of the function that derives a trait: `derive_traitenum_` and
/// the name of the trait in snake case.
pub fn derive_macro_fn_name(trait_name: &str) -> (r: String)
    ensures
        r@ == "derive_traitenum_"@ + StringPreset::Snake.spec_convert(trait_name@),
{
    let snake = StringPreset::Snake.convert(trait_name);
    String::from_str("derive_traitenum_").concat(snake.as_str())
}

/// The name of the constant that holds the model of a trait:
/// `TRAITENUM_MODEL_BYTES_` and the name of the trait in upper snake case.
pub fn derive_model_const_name(trait_name: &str) -> (r: String)
    ensures
        r@ == "TRAITENUM_MODEL_BYTES_"@ + StringPreset::UpperSnake.spec_convert(trait_name@),
{
    let upper = StringPreset::UpperSnake.convert(trait_name);
    String::from_str("TRAITENUM_MODEL_BYTES_").concat(upper.as_str())
}

/// The name of the file that tests the derive macro of a trait: the name of
/// the trait in snake case, with `.rs` behind it.
pub fn derive_test_file_name(trait_name: &str) -> (r: String)
    ensures
        r@ == StringPreset::Snake.spec_convert(trait_name@) + ".rs"@,
{
    StringPreset::Snake.convert(trait_name).concat(".rs")
}

/// The source of the test of a derive macro. `%{LIB_CRATE_NAME}%`,
/// `%{DERIVE_CRATE_NAME}%`, `%{TRAIT_NAME}%` and `%{TRAIT_SNAKE_NAME}%` stand
/// for what is filled in.
pub const DERIVE_TEST_TEMPLATE: &'static str =
    "\n#[cfg(test)]\nmod tests {\n    use %{LIB_CRATE_NAME}%::%{TRAIT_NAME}%;\n\n    #[test]\n    fn test_%{TRAIT_SNAKE_NAME}%() {\n        #[derive(%{DERIVE_CRATE_NAME}%::%{TRAIT_NAME}%)]\n        enum MyEnum {\n            Alpha,\n            Bravo,\n            Charlie\n        }\n\n        assert_eq!(\"Alpha\", MyEnum::Alpha.name());\n        assert_eq!(\"Bravo\", MyEnum::Bravo.name());\n        assert_eq!(\"Charlie\", MyEnum::Charlie.name());\n\n        assert_eq!(0, MyEnum::Alpha.ordinal());\n        assert_eq!(1, MyEnum::Bravo.ordinal());\n        assert_eq!(2, MyEnum::Charlie.ordinal());\n    }\n}\n";

/// The source of the test of a derive macro, filled in for a trait of a
/// library: first the crate of the `derive` package, then that of the `lib`
/// package, then the name of the trait, then that name in snake case.
pub fn derive_test_src(lib_name: &str, derive_name: &str, trait_name: &str) -> (r: String)
    ensures
        r@ == replaced(
            replaced(
                replaced(
                    replaced(
                        DERIVE_TEST_TEMPLATE@,
                        "%{DERIVE_CRATE_NAME}%"@,
                        crate_name_of(derive_name@),
                    ),
                    "%{LIB_CRATE_NAME}%"@,
                    crate_name_of(lib_name@),
                ),
                "%{TRAIT_NAME}%"@,
                trait_name@,
            ),
            "%{TRAIT_SNAKE_NAME}%"@,
            StringPreset::Snake.spec_convert(trait_name@),
        ),
{
    proof {
        reveal_strlit("%{DERIVE_CRATE_NAME}%");
        reveal_strlit("%{LIB_CRATE_NAME}%");
        reveal_strlit("%{TRAIT_NAME}%");
        reveal_strlit("%{TRAIT_SNAKE_NAME}%");
    }
    let derive_crate = StringPreset::Snake.convert(derive_name);
    let lib_crate = StringPreset::Snake.convert(lib_name);
    let snake = StringPreset::Snake.convert(trait_name);
    let first = replace_all(DERIVE_TEST_TEMPLATE, "%{DERIVE_CRATE_NAME}%", derive_crate.as_str());
    let second = replace_all(first.as_str(), "%{LIB_CRATE_NAME}%", lib_crate.as_str());
    let third = replace_all(second.as_str(), "%{TRAIT_NAME}%", trait_name);
    replace_all(third.as_str(), "%{TRAIT_SNAKE_NAME}%", snake.as_str())
}

} // verus!
