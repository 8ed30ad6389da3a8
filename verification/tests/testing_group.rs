use asmov_common::path;
use asmov_common::testing::{self, Group, Module, NamepathTrait, Namepath, Testable, UseCase};
use std::path::PathBuf;

const THIS_MODULE: &str = "asmov_testing::group::tests";

fn module_basic() -> Module {
    testing::unit(THIS_MODULE).build()
}

fn module_with_dirs() -> Module {
    testing::unit(THIS_MODULE).using_fixture_dir().using_temp_dir().build()
}

#[test]
fn group_test_module() {
    let module = module_basic();
    let testgroup = module.local_group("test_module").build();
    assert_eq!(&module, testgroup.module(), "Parent module should be retrievable");
}

#[test]
fn group_test_name() {
    let module = module_basic();
    let testgroup = module.local_group("test_name").build();
    assert_eq!("test_name", testgroup.name(), "Name should be awesome");
}

// Group namepath should reflect: `Group.module().namepath()` / `Group.name()`
#[test]
fn group_test_namepath() {
    let expected_namepath = "asmov_testing::group::tests::test_namepath";
    let module = module_basic();
    let testgroup = module.local_group("test_namepath").build();

    assert_eq!(expected_namepath, testgroup.namepath().path(),
        "Group namepath should reflect: `Group.module().namepath()` / `Group.name()`");
}

// Group configured with `using_tmp_dir()` should have a temp path of: `Module.tmp_dir()` + `Group.name()`
#[test]
fn group_test_temp_dir_using() {
    let module = module_with_dirs();
    let testgroup = module.local_group("test_temp_dir_using").using_temp_dir().build();

    assert_eq!(
        PathBuf::from(module.temp_dir()).join("test_temp_dir_using"),
        PathBuf::from(testgroup.temp_dir()),
        "Group configured with `using_tmp_dir()` should have a temp path of: `Module.tmp_dir()` + `Group.name()`"
    );
}

// Group configured to `inherit_temp_dir()` should have the same temp path as its parent.
#[test]
fn group_test_temp_dir_inherited() {
    let module = module_with_dirs();
    let testgroup = module.local_group("test_temp_dir_inherited").inherit_temp_dir().build();

    assert_eq!(module.temp_dir(), testgroup.temp_dir(),
        "Group configured to `inherit_temp_dir()` should have the same temp path as its parent.");
}

// Group configured with `using_fixture_dir()` should have a path of: `Module.fixture_dir()` + `Group.name()`
#[test]
fn group_test_fixture_dir_using() {
    let module = module_with_dirs();
    let testgroup = module.local_group("test_fixture_dir_using").using_fixture_dir().build();

    assert_eq!(
        PathBuf::from(module.fixture_dir()).join("test_fixture_dir_using"),
        PathBuf::from(testgroup.fixture_dir()),
        "Group configured with `using_fixture_dir()` should have a path of: `Module.fixture_dir()` + `Group.name()`"
    );
    assert_eq!("testing/fixtures/unit/group/test_fixture_dir_using", testgroup.fixture_dir());
}

// Group configured to `inherit_fixture_dir()` should have a fixture path that is the same as its Module.
#[test]
fn group_test_fixture_dir_inherited() {
    let module = module_with_dirs();
    let testgroup = module.local_group("test_fixture_dir_inherited").inherit_fixture_dir().build();

    assert_eq!(module.fixture_dir(), testgroup.fixture_dir(),
        "Group configured to `inherit_fixture_dir()` should have a fixture path that is the same as its Module.");
    assert_eq!("testing/fixtures/unit/group", testgroup.fixture_dir());
}

#[test]
fn group_test_import_fixture_dir() {
    let basic = module_basic();
    let with_dirs = module_with_dirs();
    let testgroup = basic
        .local_group("test_import_fixture_dir")
        .import_fixture_dir(with_dirs.namepath())
        .build();

    assert_eq!(with_dirs.fixture_dir(), testgroup.imported_fixture_dir(with_dirs.namepath()),
        "Group should import external fixture dir");
}

fn unit_module_namepath() -> Namepath {
    Namepath::module(UseCase::Unit, "asmov_testing::module".to_string())
}

fn expected_unit_module_fixture_dir() -> PathBuf {
    PathBuf::from("testing").join("fixtures").join(UseCase::Unit.to_str()).join("module")
}

#[test]
fn group_test_module_lookup_imported_fixture_dir() {
    let namepath = unit_module_namepath();
    let test_module = testing::unit(THIS_MODULE).import_fixture_dir(&namepath).nonstatic().build();
    let test_group = test_module.local_group("test_module_lookup_imported_fixture_dir").build();

    assert_eq!(
        expected_unit_module_fixture_dir(),
        PathBuf::from(test_group.imported_fixture_dir(&namepath)),
        "Group should lookup external fixture dir in parent module"
    );
}

#[test]
fn group_own_import_wins_over_module() {
    let namepath = unit_module_namepath();
    let module = testing::integration("sharing").import_fixture_dir(&namepath).build();
    assert_eq!("testing/fixtures/integration/module", module.imported_fixture_dir(&namepath));
    let unit_module = testing::unit(THIS_MODULE).build();
    let group = unit_module.local_group("g").import_fixture_dir(&namepath).build();
    assert_eq!(Some("testing/fixtures/unit/module"), group.try_imported_fixture_dir(&namepath));
    let plain = unit_module.local_group("h").build();
    assert_eq!(None, plain.try_imported_fixture_dir(&namepath));
}

#[test]
fn group_static_flag_and_teardown() {
    let module = module_with_dirs();
    assert!(module.group("a").is_static);
    assert!(!module.local_group("a").is_static);
    let mut group = module.local_group("a").using_temp_dir().build();
    let dir = group.temp_dir().to_string();
    assert_eq!(path::join(module.temp_dir(), "a"), dir);
    assert_eq!(Some(dir), group.teardown());
    assert!(!group.has_temp_dir());
    assert_eq!(None, group.teardown());
}

fn setup_func(group: &mut Group) {
    group.fixture_dir = Some("set up by the function".to_string());
}

// Group setup function should be ran on construction.
#[test]
fn group_test_setup_function() {
    let module = module_basic();
    let testgroup = module.local_group("test_setup_function").setup(setup_func).build();

    assert_eq!("set up by the function", testgroup.fixture_dir(),
        "Group setup function should be ran on construction.");
}

// Group setup closure should be ran on construction.
#[test]
fn group_test_setup_closure() {
    let module = module_basic();
    let mut setup_closure_called = false;
    module
        .local_group("test_setup_closure")
        .setup(|_| {
            setup_closure_called = true;
        })
        .build();

    assert!(setup_closure_called, "Group setup closure should be ran on construction.");
}

fn teardown_func(group: &mut Group) {
    group.fixture_dir = Some("torn down by the function".to_string());
}

// Group teardown function should be ran on destruction.
#[test]
fn group_test_teardown_function() {
    let module = module_with_dirs();
    let mut testgroup = module.local_group("test_teardown_function").using_temp_dir().build();
    let temp_dir = testgroup.temp_dir().to_string();

    assert_eq!(Some(temp_dir), testgroup.teardown_with(teardown_func));
    assert_eq!("torn down by the function", testgroup.fixture_dir(),
        "Group teardown function should be ran on destruction.");
    assert!(!testgroup.has_temp_dir());
}

// Group teardown closure should be ran on destruction.
#[test]
fn group_test_teardown_closure() {
    let module = module_basic();
    let mut teardown_closure_called = false;
    let mut seen_temp_dir = true;
    {
        let mut testgroup = module.local_group("test_teardown_closure").build();
        testgroup.teardown_with(|group: &mut Group| {
            teardown_closure_called = true;
            seen_temp_dir = group.has_temp_dir();
        });
    }

    assert!(teardown_closure_called, "Group teardown closure should be ran on destruction.");
    assert!(!seen_temp_dir);
}
