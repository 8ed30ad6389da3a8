use asmov_common::traitenum::cargo::cli::{
    validate_ident, AddTraitCommand, Cli, CommandModules, InitWorkspaceCommand,
    NewWorkspaceCommand, RemoveTraitCommand, TraitCommand, TraitCommandModule, TraitCommands,
    WorkspaceCommand, WorkspaceCommandModule, WorkspaceCommands,
};
use asmov_common::traitenum::cargo::manifest::{
    add_library_entry, add_trait_entry, build, check_workspace_manifest, complete_library,
    item_context, libraries_of, package_name, read_manifest, toml_append, toml_array,
    toml_path, toml_str, traits_of, PackageManifests,
};
use asmov_common::traitenum::cargo::meta::builder;
use asmov_common::traitenum::cargo::{log_line, run, Action, Errors};
use asmov_common::text::{decimal, matches_at, replace_all, split_at_char, until_line_break};
use asmov_common::traitenum::cargo::cmd::{
    check_known_trait, check_new_trait, derive_macro_fn_name, derive_manifest,
    derive_model_const_name, derive_src, derive_test_file_name, derive_test_src, find_trait,
    lib_manifest, quote_error, resolve_init_workspace, resolve_new_workspace, select_library,
    workspace_manifest,
};

const WORKSPACE: &str = r#"
[workspace]
members = ["lib", "derive"]

[[workspace.metadata.traitenum.library]]
name = "mylib"
lib-dir = "lib"
derive-dir = "derive"

[[workspace.metadata.traitenum.library]]
name = "second"
lib-dir = "second/lib"
derive-dir = "second/derive"
"#;

const LIB: &str = r#"
[package]
name = "mylib"
version = "0.1.0"

[[package.metadata.traitenum.trait]]
name = "MyTrait"

[[package.metadata.traitenum.trait]]
name = "OtherTrait"
"#;

const DERIVE: &str = r#"
[package]
name = "mylib-derive"
"#;

fn packages(lib: &str, derive: &str, dir: &str) -> PackageManifests {
    PackageManifests {
        lib: read_manifest(lib).unwrap(),
        lib_filepath: format!("{}/lib/Cargo.toml", dir),
        derive: read_manifest(derive).unwrap(),
        derive_filepath: format!("{}/derive/Cargo.toml", dir),
    }
}

#[test]
fn values_at_dotted_paths() {
    let manifest = read_manifest(LIB).unwrap();
    assert_eq!(Some("mylib"), toml_path("package.name", &manifest, "Cargo.toml").unwrap().as_str());
    assert_eq!(Ok("mylib"), toml_str("package.name", &manifest, "", "Cargo.toml"));
    assert_eq!(
        Err(Errors::MissingCargoMetadata("package.edition".to_string(), "Cargo.toml".to_string())),
        toml_str("package.edition", &manifest, "", "Cargo.toml")
    );
    assert_eq!(
        Err(Errors::MissingCargoMetadata("package.name.first".to_string(), "Cargo.toml".to_string())),
        toml_path("package.name.first", &manifest, "Cargo.toml").map(|_| ())
    );
    assert_eq!(
        Err(Errors::InvalidCargoMetadata("ctx.package".to_string(), "Cargo.toml".to_string())),
        toml_str("package", &manifest, "ctx", "Cargo.toml")
    );
    assert_eq!(
        Err(Errors::InvalidCargoMetadata(".package.name".to_string(), "Cargo.toml".to_string())),
        toml_array("package.name", &manifest, "", "Cargo.toml").map(|_| ())
    );
    let traits = toml_array("package.metadata.traitenum.trait", &manifest, "", "Cargo.toml").unwrap();
    assert_eq!(2, traits.len());
    assert_eq!(Ok("OtherTrait"), toml_str("name", &traits[1], "", "Cargo.toml"));
    assert!(read_manifest("not = [toml").is_err());
    assert!(!read_manifest("not = [toml").unwrap_err().is_empty());
}

#[test]
fn manifests_of_workspaces() {
    let workspace = read_manifest(WORKSPACE).unwrap();
    assert_eq!(Ok(()), check_workspace_manifest(&workspace, "/ws/Cargo.toml"));
    let package = read_manifest(LIB).unwrap();
    assert_eq!(
        Err(Errors::CargoManifestNotWorkspace("/ws/lib/Cargo.toml".to_string())),
        check_workspace_manifest(&package, "/ws/lib/Cargo.toml")
    );
    let name = toml_path("package.name", &package, "Cargo.toml").unwrap();
    assert_eq!(
        Err(Errors::InvalidCargoManifest("/ws/lib/Cargo.toml".to_string())),
        check_workspace_manifest(name, "/ws/lib/Cargo.toml")
    );
}

#[test]
fn libraries_that_a_workspace_lists() {
    let workspace = read_manifest(WORKSPACE).unwrap();
    let libraries = libraries_of(&workspace, "/ws/Cargo.toml").unwrap();
    assert_eq!(2, libraries.len());
    assert_eq!(Some("mylib".to_string()), libraries[0].name);
    assert_eq!(Some("lib".to_string()), libraries[0].lib_dir);
    assert_eq!(Some("derive".to_string()), libraries[0].derive_dir);
    assert_eq!(None, libraries[0].lib_name);
    assert_eq!(Some("second/derive".to_string()), libraries[1].derive_dir);

    let nothing = read_manifest("[workspace]\nmembers = []\n").unwrap();
    assert_eq!(
        Err(Errors::MissingCargoMetadata(
            "workspace.metadata.traitenum.library".to_string(),
            "/ws/Cargo.toml".to_string()
        )),
        libraries_of(&nothing, "/ws/Cargo.toml").map(|_| ())
    );
    let partial = read_manifest("[[workspace.metadata.traitenum.library]]\nname = \"x\"\nlib-dir = 3\n").unwrap();
    assert_eq!(
        Err(Errors::InvalidCargoMetadata(
            "workspace.metadata.traitenum.library[0].lib-dir".to_string(),
            "/ws/Cargo.toml".to_string()
        )),
        libraries_of(&partial, "/ws/Cargo.toml").map(|_| ())
    );
}

#[test]
fn traits_and_names_of_packages() {
    let lib = read_manifest(LIB).unwrap();
    let traits = traits_of(&lib, "lib/Cargo.toml").unwrap();
    assert_eq!(2, traits.len());
    assert_eq!(Some("MyTrait".to_string()), traits[0].name);
    assert_eq!(Some("OtherTrait".to_string()), traits[1].name);
    assert_eq!(0, traits_of(&read_manifest(DERIVE).unwrap(), "derive/Cargo.toml").unwrap().len());
    let nameless = read_manifest("[[package.metadata.traitenum.trait]]\nid = 1\n").unwrap();
    assert_eq!(
        Err(Errors::MissingCargoMetadata("name".to_string(), "lib/Cargo.toml".to_string())),
        traits_of(&nameless, "lib/Cargo.toml").map(|_| ())
    );
    assert_eq!(Ok("mylib-derive".to_string()), package_name(&read_manifest(DERIVE).unwrap(), "derive/Cargo.toml"));
    assert_eq!("list[12]", item_context("list", 12));
}

#[test]
fn the_layout_of_a_workspace() {
    let workspace = read_manifest(WORKSPACE).unwrap();
    let given = vec![
        packages(LIB, DERIVE, "/ws"),
        packages("[package]\nname = \"second\"\n", "[package]\nname = \"second-derive\"\n", "/ws/second"),
    ];
    let layout = build("/ws", &workspace, "/ws/Cargo.toml", &given).unwrap();
    assert_eq!("/ws", layout.path());
    assert_eq!(2, layout.libraries().len());
    let first = &layout.libraries()[0];
    assert_eq!("mylib", first.name());
    assert_eq!("mylib", first.lib_name());
    assert_eq!("mylib-derive", first.derive_name());
    assert_eq!("lib", first.lib_dir());
    assert_eq!("derive", first.derive_dir());
    assert_eq!(2, first.traits().len());
    assert_eq!("MyTrait", first.traits()[0].name());
    assert_eq!("/ws/lib", layout.lib_path(first));
    assert_eq!("/ws/derive", layout.derive_path(first));
    let second = &layout.libraries()[1];
    assert_eq!("second-derive", second.derive_name());
    assert_eq!(0, second.traits().len());
    assert_eq!("/ws/second/lib", layout.lib_path(second));

    let short = vec![packages(LIB, DERIVE, "/ws")];
    assert_eq!(
        Err(Errors::NoCargoManifestExists("/ws/second/lib/Cargo.toml".to_string())),
        build("/ws", &workspace, "/ws/Cargo.toml", &short).map(|_| ())
    );
    let broken = vec![packages("[package]\n", DERIVE, "/ws"), packages(LIB, DERIVE, "/ws")];
    assert_eq!(
        Err(Errors::MissingCargoMetadata("package.name".to_string(), "/ws/lib/Cargo.toml".to_string())),
        build("/ws", &workspace, "/ws/Cargo.toml", &broken).map(|_| ())
    );
}

#[test]
fn builders_of_the_layout() {
    let mut one = builder::TraitMeta::new();
    one.name("MyTrait".to_string());
    let mut library = builder::LibraryMeta::new();
    library
        .name("mylib".to_string())
        .lib_name("mylib".to_string())
        .derive_name("mylib-derive".to_string())
        .lib_dir("lib".to_string())
        .derive_dir("derive".to_string())
        .traits(vec![one]);
    let mut workspace = builder::WorkspaceMeta::new();
    workspace.path("/ws".to_string());
    assert_eq!("/ws/lib", workspace.get_lib_path(&library));
    assert_eq!("/ws/derive", workspace.get_derive_path(&library));
    workspace.libraries(vec![library]);
    let built = workspace.build();
    assert_eq!("/ws", built.path());
    assert_eq!(1, built.libraries().len());
    assert_eq!("mylib-derive", built.libraries()[0].derive_name());
    assert_eq!("MyTrait", built.libraries()[0].traits()[0].name());

    let started = builder::LibraryMeta {
        name: Some("x".to_string()),
        lib_name: None,
        derive_name: None,
        lib_dir: Some("lib".to_string()),
        derive_dir: Some("derive".to_string()),
        traits: Vec::new(),
    };
    let complete = complete_library(started, &packages(LIB, DERIVE, "/ws")).unwrap();
    assert_eq!(Some("mylib".to_string()), complete.lib_name);
    assert_eq!(Some("mylib-derive".to_string()), complete.derive_name);
    assert_eq!(2, complete.traits.len());
}

#[test]
fn errors_of_the_addon_as_text() {
    let cases = [
        (Errors::SourceParsing("bad".into(), "src/lib".into()), "Unable to parse source-code. bad: src/lib"),
        (Errors::InvalidArgument("a".into(), "b".into(), "c".into()), "Invalid argument for `a` (b): c"),
        (Errors::DuplicateTrait("T".into(), "L".into()), "Trait already exists in library `L`: T"),
        (Errors::UnknownTrait("T".into(), "L".into()), "Trait does not exist in library `L`: T"),
        (Errors::MisconfiguredCargoMetadata("x".into()), "Misconfigured cargo metadata: x"),
        (Errors::AmbiguousLibrary, "Missing --library-name argument (Multiple libraries exist)"),
        (Errors::LibraryNotFound("L".into()), "Library not found: L"),
        (
            Errors::CargoManifestExists("/p".into()),
            "A cargo manifest already exists for path (Try `init` to add workspace members): /p",
        ),
        (Errors::NoCargoManifestExists("/p".into()), "A cargo manifest cannot be found for path: /p"),
        (Errors::InvalidCargoMetadata("k".into(), "/p".into()), "Invalid metadata for `k` in cargo manifest dir: /p"),
        (Errors::InvalidCargoManifest("/p".into()), "Unable to parse cargo manifest: /p"),
        (Errors::InvalidCargoManifestKey("k".into(), "/p".into()), "Unable to parse cargo manifest for key `k`: /p"),
        (Errors::MissingCargoMetadata("k".into(), "/p".into()), "Missing metadata for `k` in cargo manifest dir: /p"),
        (Errors::NoCargoWorkspaceExists("/p".into()), "A cargo workspace cannot be found for path: /p"),
        (Errors::CargoManifestNotWorkspace("/p".into()), "The cargo manifest is not a workspace: /p"),
        (Errors::CargoRunError, "Unable to run command: cargo"),
        (Errors::RustfmtRunError, "Unable to run command: rustfmt"),
        (Errors::CargoNewError("e".into()), "Command `cargo new` failed: e"),
        (Errors::CargoAddError("d".into(), "e".into()), "Command `cargo add` failed for `d`: e"),
        (Errors::CargoError("test".into()), "Command `cargo test` failed"),
    ];
    for (error, text) in cases {
        assert_eq!(text, error.to_text());
    }
    assert_eq!("[traitenum] hello", log_line("hello"));
}

fn trait_command(name: &str) -> TraitCommand {
    TraitCommand { trait_name: name.to_string(), workspace_path: None, library_name: None }
}

#[test]
fn the_work_that_a_command_line_asks_for() {
    let cli = Cli {
        quiet: true,
        module: CommandModules::Trait(TraitCommandModule {
            command: TraitCommands::Add(AddTraitCommand { module: trait_command("MyTrait") }),
        }),
    };
    assert!(matches!(run(cli), Action::AddTrait(args, true, true) if args.module.trait_name == "MyTrait"));
    let cli = Cli {
        quiet: false,
        module: CommandModules::Trait(TraitCommandModule {
            command: TraitCommands::Remove(RemoveTraitCommand { module: trait_command("MyTrait") }),
        }),
    };
    assert!(matches!(run(cli), Action::RemoveTrait(_, false)));
    let defaults = WorkspaceCommand::defaults();
    assert_eq!(("lib", "derive"), (defaults.lib_dir.as_str(), defaults.derive_dir.as_str()));
    assert_eq!((None, None, None), (defaults.workspace_path, defaults.lib_name, defaults.derive_name));
    let cli = Cli {
        quiet: false,
        module: CommandModules::Workspace(WorkspaceCommandModule {
            command: WorkspaceCommands::New(NewWorkspaceCommand {
                workspace_name: "ws".to_string(),
                library: WorkspaceCommand::defaults(),
            }),
        }),
    };
    assert!(matches!(run(cli), Action::NewWorkspace(args, false) if args.workspace_name == "ws"));
    let cli = Cli {
        quiet: true,
        module: CommandModules::Workspace(WorkspaceCommandModule {
            command: WorkspaceCommands::Init(InitWorkspaceCommand {
                library_name: "mylib".to_string(),
                module: WorkspaceCommand::defaults(),
            }),
        }),
    };
    assert!(matches!(run(cli), Action::InitWorkspace(args, true) if args.library_name == "mylib"));
}

#[test]
fn names_of_traits_must_be_identifiers() {
    assert_eq!(Ok("MyTrait".to_string()), validate_ident("MyTrait"));
    assert_eq!(Ok("_private9".to_string()), validate_ident("_private9"));
    assert!(validate_ident("9lives").is_err());
    assert!(validate_ident("two words").is_err());
    assert!(validate_ident("").is_err());
    assert!(validate_ident("fn").is_err());
    assert!(!validate_ident("a-b").unwrap_err().is_empty());
}

#[test]
fn numbers_and_parts() {
    assert_eq!("0", decimal(0));
    assert_eq!("9", decimal(9));
    assert_eq!("10", decimal(10));
    assert_eq!("1234567890", decimal(1234567890));
    assert_eq!(usize::MAX.to_string(), decimal(usize::MAX));
    assert_eq!(vec!["a", "b", "c"], split_at_char("a.b.c", '.'));
    assert_eq!(vec![""], split_at_char("", '.'));
    assert_eq!(vec!["", "a", "", ""], split_at_char(".a..", '.'));
    for input in ["", "a", "a.b", "..", "lib-dir.x."] {
        let expected: Vec<&str> = input.split('.').collect();
        assert_eq!(expected, split_at_char(input, '.'));
    }
}

#[test]
fn complaints_of_tools_are_cut_short() {
    assert_eq!("could not find `Cargo.toml`", quote_error("error: could not find `Cargo.toml`\nmore\nlines"));
    assert_eq!("plain", quote_error("plain"));
    assert_eq!("", quote_error(""));
    assert_eq!("", quote_error("\nsecond"));
    assert_eq!("a b", quote_error("error: a error: b"));
    assert_eq!("error:", quote_error("error:"));
}

#[test]
fn replacing_agrees_with_std() {
    for (text, pattern, with) in [
        ("foo::bar::jar", "::", "_"),
        ("aaa", "aa", "b"),
        ("aaaa", "aa", "b"),
        ("", "x", "y"),
        ("error: error: x", "error: ", ""),
        ("%{LIB_NAME}% and %{LIB_NAME}%", "%{LIB_NAME}%", "mylib"),
        ("abc", "abcd", "x"),
        ("abc", "c", "cc"),
    ] {
        assert_eq!(text.replace(pattern, with), replace_all(text, pattern, with), "{:?}", text);
    }
    assert!(matches_at("abc", 1, "bc"));
    assert!(!matches_at("abc", 2, "bc"));
    assert!(matches_at("abc", 3, ""));
    assert!(!matches_at("abc", 4, ""));
    assert_eq!("one", until_line_break("one\ntwo"));
    assert_eq!("one", until_line_break("one"));
}

fn workspace_command(path: Option<&str>) -> WorkspaceCommand {
    WorkspaceCommand { workspace_path: path.map(|p| p.to_string()), ..WorkspaceCommand::defaults() }
}

#[test]
fn arguments_of_new_with_defaults() {
    let args = NewWorkspaceCommand { workspace_name: "mylib".to_string(), library: workspace_command(None) };
    let resolved = resolve_new_workspace(args, "/home/dev").map_err(|_| ()).unwrap();
    assert_eq!(Some("/home/dev/mylib".to_string()), resolved.library.workspace_path);
    assert_eq!(Some("mylib".to_string()), resolved.library.lib_name);
    assert_eq!(Some("mylib-derive".to_string()), resolved.library.derive_name);
    assert_eq!(("lib", "derive"), (resolved.library.lib_dir.as_str(), resolved.library.derive_dir.as_str()));

    let mut library = workspace_command(Some("work/space"));
    library.lib_name = Some("given".to_string());
    library.derive_name = Some("given-macros".to_string());
    let args = NewWorkspaceCommand { workspace_name: "mylib".to_string(), library };
    let resolved = resolve_new_workspace(args, "/home/dev").map_err(|_| ()).unwrap();
    assert_eq!(Some("/home/dev/work/space".to_string()), resolved.library.workspace_path);
    assert_eq!(Some("given".to_string()), resolved.library.lib_name);
    assert_eq!(Some("given-macros".to_string()), resolved.library.derive_name);

    let args = NewWorkspaceCommand { workspace_name: "mylib".to_string(), library: workspace_command(Some("/abs")) };
    let resolved = resolve_new_workspace(args, "/home/dev").map_err(|_| ()).unwrap();
    assert_eq!(Some("/abs".to_string()), resolved.library.workspace_path);

    let args = NewWorkspaceCommand { workspace_name: "some/path".to_string(), library: workspace_command(None) };
    let refused = resolve_new_workspace(args, "/home/dev").map(|_| ()).unwrap_err();
    assert_eq!(
        Errors::InvalidArgument(
            "workspace-name".to_string(),
            "Try `--workspace-path` instead".to_string(),
            "some/path".to_string()
        ),
        refused
    );
    assert_eq!(
        "Invalid argument for `workspace-name` (Try `--workspace-path` instead): some/path",
        refused.to_text()
    );
}

#[test]
fn arguments_of_init_with_defaults() {
    let args = InitWorkspaceCommand { library_name: "second".to_string(), module: workspace_command(None) };
    let (resolved, warn) = resolve_init_workspace(args, "/ws");
    assert!(!warn);
    assert_eq!(Some("/ws/second".to_string()), resolved.module.workspace_path);
    assert_eq!(Some("second".to_string()), resolved.module.lib_name);
    assert_eq!(Some("second-derive".to_string()), resolved.module.derive_name);

    let mut module = workspace_command(Some("."));
    module.lib_name = Some("other".to_string());
    let args = InitWorkspaceCommand { library_name: "second".to_string(), module };
    let (resolved, warn) = resolve_init_workspace(args, "/ws");
    assert!(warn);
    assert_eq!(Some("/ws/.".to_string()), resolved.module.workspace_path);
    assert_eq!(Some("other".to_string()), resolved.module.lib_name);
    assert_eq!("second", resolved.library_name);
}

fn layout() -> asmov_common::traitenum::cargo::meta::WorkspaceMeta {
    let workspace = read_manifest(WORKSPACE).unwrap();
    let given = vec![
        packages(LIB, DERIVE, "/ws"),
        packages("[package]\nname = \"second\"\n", "[package]\nname = \"second-derive\"\n", "/ws/second"),
    ];
    build("/ws", &workspace, "/ws/Cargo.toml", &given).unwrap()
}

#[test]
fn the_library_that_a_command_works_on() {
    let two = layout();
    assert_eq!(Err(Errors::AmbiguousLibrary), select_library(&two, &None));
    assert_eq!(Ok(0), select_library(&two, &Some("mylib".to_string())));
    assert_eq!(Ok(1), select_library(&two, &Some("second".to_string())));
    assert_eq!(
        Err(Errors::LibraryNotFound("third".to_string())),
        select_library(&two, &Some("third".to_string()))
    );

    let workspace = read_manifest(WORKSPACE).unwrap();
    let one_listed = read_manifest(
        "[[workspace.metadata.traitenum.library]]\nname = \"mylib\"\nlib-dir = \"lib\"\nderive-dir = \"derive\"\n",
    )
    .unwrap();
    let one = build("/ws", &one_listed, "/ws/Cargo.toml", &vec![packages(LIB, DERIVE, "/ws")]).unwrap();
    assert_eq!(Ok(0), select_library(&one, &None));
    assert_eq!(Ok(0), select_library(&one, &Some("whatever".to_string())));

    let none_listed = read_manifest("[workspace]\nmetadata.traitenum.library = []\n").unwrap();
    let none = build("/ws", &none_listed, "/ws/Cargo.toml", &vec![]).unwrap();
    assert_eq!(
        Err(Errors::MisconfiguredCargoMetadata("No traitenum libraries found".to_string())),
        select_library(&none, &None)
    );
    assert_eq!(Ok(()), check_workspace_manifest(&workspace, "/ws/Cargo.toml"));
}

#[test]
fn the_traits_that_a_library_lists() {
    let two = layout();
    let library = &two.libraries()[0];
    assert_eq!(Some(0), find_trait(library, "MyTrait"));
    assert_eq!(Some(1), find_trait(library, "OtherTrait"));
    assert_eq!(None, find_trait(library, "mytrait"));
    assert_eq!(Ok(()), check_new_trait(library, "NewTrait"));
    assert_eq!(
        Err(Errors::DuplicateTrait("OtherTrait".to_string(), "mylib".to_string())),
        check_new_trait(library, "OtherTrait")
    );
    assert_eq!(Ok(1), check_known_trait(library, "OtherTrait"));
    assert_eq!(
        Err(Errors::UnknownTrait("NewTrait".to_string(), "mylib".to_string())),
        check_known_trait(library, "NewTrait")
    );
    assert_eq!(
        "Trait already exists in library `mylib`: OtherTrait",
        check_new_trait(library, "OtherTrait").unwrap_err().to_text()
    );
}

#[test]
fn the_files_of_a_new_library() {
    assert_eq!(
        "[workspace]\nresolver = \"2\"\nmembers = [ \"lib\", \"derive\" ]\n\n[[workspace.metadata.traitenum.library]]\nname = \"my-lib\"\nlib-dir = \"lib\"\nderive-dir = \"derive\"\n",
        workspace_manifest("my-lib", "lib", "derive")
    );
    assert_eq!(
        "[package]\nname = \"my-lib\"\nversion = \"0.1.0\"\nedition = \"2021\"\n\n[package.metadata.traitenum]\npurpose = \"lib\"\n",
        lib_manifest("my-lib")
    );
    assert_eq!(
        "[package]\nname = \"my-lib-derive\"\nversion = \"0.1.0\"\nedition = \"2021\"\n\n[lib]\nproc-macro = true\n\n[package.metadata.traitenum]\npurpose = \"derive\"\n",
        derive_manifest("my-lib-derive")
    );
    assert_eq!(
        "traitenum_lib::gen_require!(my_lib, my_lib_derive);\n",
        derive_src("my-lib", "my-lib-derive")
    );
    assert_eq!("derive_traitenum_my_trait", derive_macro_fn_name("MyTrait"));
    assert_eq!("TRAITENUM_MODEL_BYTES_MY_TRAIT", derive_model_const_name("MyTrait"));
    assert_eq!("my_trait.rs", derive_test_file_name("MyTrait"));
    let test = derive_test_src("my-lib", "my-lib-derive", "MyTrait");
    assert!(test.contains("    use my_lib::MyTrait;\n"));
    assert!(test.contains("    fn test_my_trait() {\n"));
    assert!(test.contains("        #[derive(my_lib_derive::MyTrait)]\n"));
    assert!(!test.contains("%{"));
    // What the workspace manifest lists is what the layout reads.
    let listed = read_manifest(&workspace_manifest("my-lib", "lib", "derive")).unwrap();
    let libraries = libraries_of(&listed, "Cargo.toml").unwrap();
    assert_eq!(Some("my-lib".to_string()), libraries[0].name);
}

#[test]
fn items_are_added_to_the_lists_of_a_manifest() {
    let text = |s: &str| toml::Value::String(s.to_string());
    // The array and the tables on the way are made where they are missing.
    let empty = read_manifest("").unwrap();
    let made = toml_append("a.b.c", empty, text("x"), "", "Cargo.toml").unwrap();
    assert_eq!(read_manifest("[a.b]\nc = [\"x\"]\n").unwrap(), made);
    let more = toml_append("a.b.c", made, text("y"), "", "Cargo.toml").unwrap();
    assert_eq!(read_manifest("[a.b]\nc = [\"x\", \"y\"]\n").unwrap(), more);
    let beside = toml_append("a.d", more, text("z"), "", "Cargo.toml").unwrap();
    assert_eq!(read_manifest("[a]\nd = [\"z\"]\n[a.b]\nc = [\"x\", \"y\"]\n").unwrap(), beside);

    // The way is barred by what is no table, and by what is no array at the end.
    let barred = read_manifest("a = 1\n").unwrap();
    assert_eq!(
        Err(Errors::InvalidCargoManifestKey("ctx.a.b".to_string(), "Cargo.toml".to_string())),
        toml_append("a.b", barred, text("x"), "ctx", "Cargo.toml")
    );
    let no_array = read_manifest("[a]\nb = \"text\"\n").unwrap();
    assert_eq!(
        Err(Errors::InvalidCargoManifestKey(".a.b".to_string(), "Cargo.toml".to_string())),
        toml_append("a.b", no_array, text("x"), "", "Cargo.toml")
    );
    assert_eq!(
        Err(Errors::InvalidCargoManifestKey(".a".to_string(), "Cargo.toml".to_string())),
        toml_append("a", text("root"), text("x"), "", "Cargo.toml")
    );
}

#[test]
fn a_trait_and_a_library_are_listed() {
    let lib = read_manifest("[package]\nname = \"mylib\"\n").unwrap();
    let listed = add_trait_entry(lib, "MyTrait", "lib/Cargo.toml").unwrap();
    let listed = add_trait_entry(listed, "OtherTrait", "lib/Cargo.toml").unwrap();
    assert_eq!(read_manifest(LIB.replace("version = \"0.1.0\"\n", "").as_str()).unwrap(), listed);
    let traits = traits_of(&listed, "lib/Cargo.toml").unwrap();
    assert_eq!(Some("OtherTrait".to_string()), traits[1].name);

    let workspace = read_manifest("[workspace]\nmembers = [\"one\"]\n").unwrap();
    let grown = add_library_entry(workspace, "mylib", "lib", "derive", "Cargo.toml").unwrap();
    assert_eq!(
        read_manifest(
            "[workspace]\nmembers = [\"one\", \"lib\", \"derive\"]\n\n[[workspace.metadata.traitenum.library]]\nname = \"mylib\"\nlib-dir = \"lib\"\nderive-dir = \"derive\"\n"
        )
        .unwrap(),
        grown
    );
    let libraries = libraries_of(&grown, "Cargo.toml").unwrap();
    assert_eq!(1, libraries.len());
    assert_eq!(Some("derive".to_string()), libraries[0].derive_dir);

    let barred = read_manifest("workspace = 1\n").unwrap();
    assert!(add_library_entry(barred, "mylib", "lib", "derive", "Cargo.toml").is_err());
}
