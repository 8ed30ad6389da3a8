use asmov_common::linux::{Environment, InstallPath, InstallPathSuffix};

const SUFFIX: InstallPathSuffix = InstallPathSuffix { config_dir: "asmov/test", data_dir: "asmov/test" };

fn environment() -> Environment {
    Environment {
        executable_dir: "/opt/app/bin".to_string(),
        working_dir: "/srv/work".to_string(),
        project_dir: "/home/dev/project".to_string(),
        home_dir: Some("/home/dev".to_string()),
    }
}

#[test]
fn test_install_path() {
    let env = environment();
    assert_eq!("/usr/local/etc/asmov/test", InstallPath::SystemLocal(SUFFIX).config_dir(&env));
    assert_eq!("/etc/asmov/test", InstallPath::SystemGlobal(SUFFIX).config_dir(&env));
}

#[test]
fn config_and_data_dirs_of_every_kind() {
    let env = environment();
    assert_eq!("/home/dev/project/.local/config/asmov/test", InstallPath::Project(SUFFIX).config_dir(&env));
    assert_eq!("/home/dev/.config/asmov/test", InstallPath::Home(SUFFIX).config_dir(&env));
    assert_eq!("/srv/work/.local/config/asmov/test", InstallPath::Working(SUFFIX).config_dir(&env));
    assert_eq!("/home/dev/project/.local/share/asmov/test", InstallPath::Project(SUFFIX).data_dir(&env));
    assert_eq!("/var/local/asmov/test", InstallPath::SystemLocal(SUFFIX).data_dir(&env));
    assert_eq!("/var/asmov/test", InstallPath::SystemGlobal(SUFFIX).data_dir(&env));
    assert_eq!("/home/dev/.local/share/asmov/test", InstallPath::Home(SUFFIX).data_dir(&env));
    assert_eq!("/srv/work/.local/share/asmov/test", InstallPath::Working(SUFFIX).data_dir(&env));
    assert_eq!("/usr/local/etc/asmov/test/secrets", InstallPath::SystemLocal(SUFFIX).config_secrets_dir(&env));
    assert_eq!("/home/dev/project", InstallPath::project_dir(&env));
    assert_eq!("/home/dev", InstallPath::home_dir(&env));
    assert_eq!("/home/dev/.config/asmov/test", InstallPath::home_config_dir(SUFFIX, "/home/dev"));
}

#[test]
fn kind_of_installation_from_a_directory() {
    let env = environment();
    assert!(matches!(InstallPath::from_dir(SUFFIX, "/usr/local/bin", &env, true), InstallPath::SystemLocal(_)));
    assert!(matches!(InstallPath::from_dir(SUFFIX, "/usr/bin", &env, true), InstallPath::SystemGlobal(_)));
    assert!(matches!(InstallPath::from_dir(SUFFIX, "/usr/localx/bin", &env, false), InstallPath::SystemGlobal(_)));
    assert!(matches!(InstallPath::from_dir(SUFFIX, "/opt/app", &env, true), InstallPath::Home(_)));
    assert!(matches!(InstallPath::from_dir(SUFFIX, "/opt/app", &env, false), InstallPath::Working(_)));
    assert!(matches!(InstallPath::from_executable(SUFFIX, &env, false), InstallPath::Working(_)));
    let inside = Environment { working_dir: "/home/dev/project/sub".to_string(), ..environment() };
    assert!(matches!(InstallPath::from_dir(SUFFIX, "/usr/bin", &inside, true), InstallPath::Project(_)));
    let homeless = Environment { home_dir: None, ..environment() };
    assert!(matches!(InstallPath::from_dir(SUFFIX, "/opt/app", &homeless, true), InstallPath::Working(_)));
}

#[test]
fn the_order_in_which_the_kinds_are_decided() {
    let decide = |p, l, u, h, c| InstallPath::decide(SUFFIX, p, l, u, h, c);
    assert!(matches!(decide(true, true, true, true, true), InstallPath::Project(_)));
    assert!(matches!(decide(false, true, true, true, true), InstallPath::SystemLocal(_)));
    assert!(matches!(decide(false, false, true, true, true), InstallPath::SystemGlobal(_)));
    assert!(matches!(decide(false, false, false, true, true), InstallPath::Home(_)));
    assert!(matches!(decide(false, false, false, true, false), InstallPath::Working(_)));
    assert!(matches!(decide(false, false, false, false, true), InstallPath::Working(_)));
    assert!(matches!(decide(false, false, false, false, false), InstallPath::Working(_)));
    assert!(matches!(decide(true, false, false, false, false), InstallPath::Project(_)));
}
