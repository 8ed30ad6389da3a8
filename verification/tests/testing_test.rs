use asmov_common::testing::{
    self, Group, Module, NamepathTrait, Namepath, Test, Testable, UseCase,
};
use std::path::PathBuf;

const THIS_MODULE: &str = "asmov_testing::test::tests";

fn module_basic() -> Module {
    testing::unit(THIS_MODULE).build()
}

fn module_with_dirs() -> Module {
    testing::unit(THIS_MODULE).using_fixture_dir().using_temp_dir().build()
}

fn group_basic(module: &Module) -> Group<'_> {
    module.group("group_basic").build()
}

fn group_with_dirs(module: &Module) -> Group<'_> {
    module.group("group_with_dirs").using_fixture_dir().using_temp_dir().build()
}

// Test parent Module should be bound.
#[test]
fn test_test_module() {
    let module = module_basic();
    let test = module.test("test_module").build();
    assert_eq!(&module, test.module(), "Test parent Module should be bound.");
}

// Test parent Group should be bound.
#[test]
fn test_test_group() {
    let module = module_with_dirs();
    let group = group_basic(&module);
    let test = group.test("test_group").build();
    assert_eq!(group.namepath(), test.group().unwrap().namepath(),
        "Test parent Group should be bound.");
}

// Test name should be set.
#[test]
fn test_test_name() {
    let module = module_basic();
    let test = module.test("test_name").build();
    assert_eq!("test_name", test.name(), "Test name should be set.");
}

// Test with only a parent Module should have a namepath of: `Test::module().namepath()` / `Test::name()`
// Test with a parent Group should have a namepath of: `Test::group().namepath()` / `Test::name()`
#[test]
fn test_test_namepath() {
    let expected_namepath_module = "asmov_testing::test::tests::test_namepath";
    let module = module_basic();
    let test = module.test("test_namepath").build();

    assert_eq!(expected_namepath_module, test.namepath().path(),
        "Test with only a parent Module should have a namepath of: `Test::module().namepath()` / `Test::name()`");

    let expected_namepath_group = "asmov_testing::test::tests::group_basic::test_namepath";
    let module = module_with_dirs();
    let group = group_basic(&module);
    let test = group.test("test_namepath").build();

    assert_eq!(expected_namepath_group, test.namepath().path(),
        "Test with a parent Group should have a namepath of: `Test::group().namepath()` / `Test::name()`");
}

// Test configured with `using_tmp_dir()` should have a temp path of: `Module.tmp_dir()` + `Test.name()`
#[test]
fn test_test_temp_dir_using() {
    let module = module_with_dirs();
    let test = module.test("test_temp_dir_using").using_temp_dir().build();

    assert_eq!(
        PathBuf::from(module.temp_dir()).join("test_temp_dir_using"),
        PathBuf::from(test.temp_dir()),
        "Test configured with `using_tmp_dir()` should have a temp path of: `Module.tmp_dir()` + `Test.name()`"
    );
}

// Test configured to `inherit_temp_dir()` should have the same temp path as its parent.
#[test]
fn test_test_temp_dir_inherited() {
    let module = module_with_dirs();
    let test = module.test("test_temp_dir_inherited").inherit_temp_dir().build();

    assert_eq!(module.temp_dir(), test.temp_dir(),
        "Test configured to `inherit_temp_dir()` should have the same temp path as its parent.");
}

// Test configured with `using_fixture_dir()` should have a path of: `Module::fixture_dir()` + `Test::name()`
// Test configured with `using_fixture_dir()` should have a path of: `Group::fixture_dir()` + `Test::name()`
#[test]
fn test_test_fixture_dir_using() {
    let module = module_with_dirs();
    let test = module.test("test_fixture_dir_using").using_fixture_dir().build();

    assert_eq!(
        PathBuf::from(module.fixture_dir()).join("test_fixture_dir_using"),
        PathBuf::from(test.fixture_dir()),
        "Test configured with `using_fixture_dir()` should have a path of: `Module::fixture_dir()` + `Test::name()`"
    );
    assert_eq!("testing/fixtures/unit/test/test_fixture_dir_using", test.fixture_dir());

    let group = group_with_dirs(&module);
    let test = group.test("test_fixture_dir_using").using_fixture_dir().build();

    assert_eq!(
        PathBuf::from(group.fixture_dir()).join("test_fixture_dir_using"),
        PathBuf::from(test.fixture_dir()),
        "Test configured with `using_fixture_dir()` should have a path of: `Group::fixture_dir()` + `Test::name()`"
    );
    assert_eq!("testing/fixtures/unit/test/group_with_dirs/test_fixture_dir_using", test.fixture_dir());
}

// Test configured to `inherit_fixture_dir()` should have a fixture path that is the same as its Module.
// Test configured to `inherit_fixture_dir()` should have a fixture path that is the same as its Group.
#[test]
fn test_test_fixture_dir_inherited() {
    let module = module_with_dirs();
    let test = module.test("test_fixture_dir_inherited").inherit_fixture_dir().build();

    assert_eq!(module.fixture_dir(), test.fixture_dir(),
        "Test configured to `inherit_fixture_dir()` should have a fixture path that is the same as its Module.");
    assert_eq!("testing/fixtures/unit/test", test.fixture_dir());

    let group = group_with_dirs(&module);
    let test = group.test("test_fixture_dir_inherited").inherit_fixture_dir().build();

    assert_eq!(group.fixture_dir(), test.fixture_dir(),
        "Test configured to `inherit_fixture_dir()` should have a fixture path that is the same as its Module.");
    assert_eq!("testing/fixtures/unit/test/group_with_dirs", test.fixture_dir());
}

#[test]
fn test_test_import_fixture_dir() {
    let basic = module_basic();
    let with_dirs = module_with_dirs();
    let test = basic.test("test_import_fixture_dir").import_fixture_dir(with_dirs.namepath()).build();

    assert_eq!(with_dirs.fixture_dir(), test.imported_fixture_dir(with_dirs.namepath()),
        "Test should import external fixture dir");
}

fn unit_module_namepath() -> Namepath {
    Namepath::module(UseCase::Unit, "asmov_testing::module".to_string())
}

fn expected_unit_module_fixture_dir() -> PathBuf {
    PathBuf::from("testing").join("fixtures").join(UseCase::Unit.to_str()).join("module")
}

#[test]
fn test_test_module_lookup_imported_fixture_dir() {
    let expected_unit_module_fixture_dir = expected_unit_module_fixture_dir();
    let namepath = unit_module_namepath();
    let test_module = testing::unit(THIS_MODULE).import_fixture_dir(&namepath).nonstatic().build();
    let test_group = test_module.local_group("test_module_lookup_imported_fixture_dir").build();
    let test = test_group.test("test_module_lookup_imported_fixture_dir").build();

    assert_eq!(expected_unit_module_fixture_dir, PathBuf::from(test.imported_fixture_dir(&namepath)),
        "Test should lookup external fixture dir in parent module");
}

#[test]
fn test_group_lookup_imported_fixture_dir() {
    let expected_unit_module_fixture_dir = expected_unit_module_fixture_dir();
    let namepath = unit_module_namepath();
    let test_module = testing::unit(THIS_MODULE).nonstatic().build();
    let test_group = test_module
        .local_group("test_group_lookup_imported_fixture_dir")
        .import_fixture_dir(&namepath)
        .build();
    let test = test_group.test("test_group_lookup_imported_fixture_dir").build();

    assert_eq!(expected_unit_module_fixture_dir, PathBuf::from(test.imported_fixture_dir(&namepath)),
        "Test should lookup external fixture dir in parent group");
}

// Test `parent()` should return its Module if configured without a Group.
// Test `parent()` should return its Group if configured with one.
#[test]
fn test_test_parent() {
    let module = module_basic();
    let test = module.test("test_parent").build();

    assert!(test.parent().is_module(),
        "Test `parent()` should return its Module if configured without a Group.");
    assert_eq!(module.namepath(), test.parent().namepath(),
        "Test `parent()` should return its Module if configured without a Group.");

    let module = module_with_dirs();
    let group = group_basic(&module);
    let test = group.test("test_parent").build();

    assert!(test.parent().is_group(),
        "Test `parent()` should return its Group if configured with one.");
    assert_eq!(group.namepath(), test.parent().namepath(),
        "Test `parent()` should return its Group if configured with one.");
}

#[test]
fn test_in_group_takes_group_directories() {
    let module = module_with_dirs();
    let group = group_with_dirs(&module);
    let test = group.test("t").inherit_temp_dir().build();
    assert_eq!(group.temp_dir(), test.temp_dir());
    let mut test = group.test("t").using_temp_dir().build();
    assert_eq!(
        PathBuf::from(group.temp_dir()).join("t"),
        PathBuf::from(test.temp_dir())
    );
    assert_eq!(Some("t"), test.namepath().path().rsplit("::").next());
    let dir = test.temp_dir().to_string();
    assert_eq!(Some(dir), test.teardown());
    assert_eq!(None, test.teardown());
    let plain = group.test("u").build();
    assert!(plain.temp_dir.is_none());
    assert!(plain.fixture_dir.is_none());
    assert!(test.parent().temp_dir() == group.temp_dir());
}

fn setup_func(test: &mut Test) {
    test.fixture_dir = Some("set up by the function".to_string());
}

// Test setup function should be ran on construction.
#[test]
fn test_test_setup_function() {
    let module = module_with_dirs();
    let group = group_basic(&module);
    let test = group.test("test_setup_function").setup(setup_func).build();

    assert_eq!("set up by the function", test.fixture_dir(),
        "Test setup function should be ran on construction.");
}

// Test setup closure should be ran on construction.
#[test]
fn test_test_setup_closure() {
    let module = module_with_dirs();
    let group = group_basic(&module);
    let mut setup_closure_called = false;
    group
        .test("test_setup_closure")
        .setup(|_| {
            setup_closure_called = true;
        })
        .build();

    assert!(setup_closure_called, "Test setup closure should be ran on construction.");
}

fn teardown_func(test: &mut Test) {
    test.fixture_dir = Some("torn down by the function".to_string());
}

// Test teardown function should be ran on destruction.
#[test]
fn test_test_teardown_function() {
    let module = module_with_dirs();
    let group = group_with_dirs(&module);
    let mut test = group.test("test_teardown_function").using_temp_dir().build();
    let temp_dir = test.temp_dir().to_string();

    assert_eq!(Some(temp_dir), test.teardown_with(teardown_func));
    assert_eq!("torn down by the function", test.fixture_dir(),
        "Test teardown function should be ran on destruction.");
    assert!(test.temp_dir.is_none());
}

// Test teardown closure should be ran on destruction.
#[test]
fn test_test_teardown_closure() {
    let module = module_with_dirs();
    let group = group_basic(&module);
    let mut teardown_closure_called = false;
    {
        let mut test = group.test("test_teardown_closure").build();
        test.teardown_with(|_| {
            teardown_closure_called = true;
        });
    }

    assert!(teardown_closure_called, "Test teardown closure should be ran on destruction.");
}
