use vstd::prelude::*;
use crate::path::{join, joined};

verus! {

/// The directories of an application below the configuration root and below
/// the data root.
#[derive(Debug, Clone, Copy)]
pub struct InstallPathSuffix {
    pub config_dir: &'static str,
    pub data_dir: &'static str,
}

/// What the process knows of its surroundings: where its executable lies,
/// where it works, where its project lies, and the user's home if there is one.
#[derive(Debug)]
pub struct Environment {
    pub executable_dir: String,
    pub working_dir: String,
    pub project_dir: String,
    pub home_dir: Option<String>,
}

/// The common directories of an application, by the way it was installed.
#[derive(Debug, Clone, Copy)]
pub enum InstallPath {
    /// The application runs out of its project directory. Configuration and
    /// data live in the project's `.local/config` and `.local/share`.
    Project(InstallPathSuffix),
    /// The application runs from `/usr/local`. Configuration lives in
    /// `/usr/local/etc`, data in `/var/local`.
    SystemLocal(InstallPathSuffix),
    /// The application runs from `/usr`. Configuration lives in `/etc`, data
    /// in `/var`.
    SystemGlobal(InstallPathSuffix),
    /// The application runs from elsewhere. Configuration and data live in
    /// the user's `~/.config` and `~/.local/share`.
    Home(InstallPathSuffix),
    /// The application runs from elsewhere. Configuration and data live in
    /// the working directory's `.local/config` and `.local/share`.
    Working(InstallPathSuffix),
}

/// What `Path::starts_with` of std answers for two paths given as text: whether
/// the second is a prefix of the first, taken component by component.
pub uninterp spec fn path_starts_with(path: Seq<char>, base: Seq<char>) -> bool;

/// Asks `std::path::Path::starts_with`, which compares whole components and
/// reads nothing from disk. Trusted: the answer is a function of the two texts
/// alone, named `path_starts_with`.
#[verifier::external_body]
fn starts_with(path: &str, base: &str) -> (r: bool)
    ensures
        r == path_starts_with(path@, base@),
{
    std::path::Path::new(path).starts_with(base)
}

impl InstallPath {
    pub open spec fn suffix(self) -> InstallPathSuffix {
        match self {
            InstallPath::Project(s) => s,
            InstallPath::SystemLocal(s) => s,
            InstallPath::SystemGlobal(s) => s,
            InstallPath::Home(s) => s,
            InstallPath::Working(s) => s,
        }
    }

    /// The kind of installation, from what is known of the directories. Work
    /// inside the project directory comes first; then a directory under
    /// `/usr/local/`; then one under `/usr/`; then the user's home, if there is
    /// one and its configuration directory for this application exists; and
    /// last the working directory.
    pub open spec fn spec_decide(
        suffix: InstallPathSuffix,
        in_project: bool,
        under_usr_local: bool,
        under_usr: bool,
        has_home: bool,
        home_config_exists: bool,
    ) -> InstallPath {
        if in_project {
            InstallPath::Project(suffix)
        } else if under_usr_local {
            InstallPath::SystemLocal(suffix)
        } else if under_usr {
            InstallPath::SystemGlobal(suffix)
        } else if has_home && home_config_exists {
            InstallPath::Home(suffix)
        } else {
            InstallPath::Working(suffix)
        }
    }

    /// Decides the kind of installation from what is known of the directories.
    pub fn decide(
        suffix: InstallPathSuffix,
        in_project: bool,
        under_usr_local: bool,
        under_usr: bool,
        has_home: bool,
        home_config_exists: bool,
    ) -> (r: InstallPath)
        ensures
            r == Self::spec_decide(
                suffix,
                in_project,
                under_usr_local,
                under_usr,
                has_home,
                home_config_exists,
            ),
    {
        if in_project {
            InstallPath::Project(suffix)
        } else if under_usr_local {
            InstallPath::SystemLocal(suffix)
        } else if under_usr {
            InstallPath::SystemGlobal(suffix)
        } else if has_home && home_config_exists {
            InstallPath::Home(suffix)
        } else {
            InstallPath::Working(suffix)
        }
    }

    /// The kind of installation that a directory speaks for: what `decide`
    /// makes of whether the working directory lies in the project, whether
    /// the directory lies under `/usr/local/` and whether it lies under `/usr/`.
    pub open spec fn spec_from_dir(
        suffix: InstallPathSuffix,
        dir: Seq<char>,
        environment: Environment,
        home_config_exists: bool,
    ) -> InstallPath {
        Self::spec_decide(
            suffix,
            path_starts_with(environment.working_dir@, environment.project_dir@),
            path_starts_with(dir, "/usr/local/"@),
            path_starts_with(dir, "/usr/"@),
            environment.home_dir is Some,
            home_config_exists,
        )
    }

    /// Decides the kind of installation from a directory. Whether the home
    /// configuration directory exists, see `home_config_dir`, is for the caller
    /// to find out.
    pub fn from_dir(
        suffix: InstallPathSuffix,
        dir: &str,
        environment: &Environment,
        home_config_exists: bool,
    ) -> (r: InstallPath)
        ensures
            r == Self::spec_from_dir(suffix, dir@, *environment, home_config_exists),
    {
        let in_project = starts_with(
            environment.working_dir.as_str(),
            environment.project_dir.as_str(),
        );
        let under_usr_local = starts_with(dir, "/usr/local/");
        let under_usr = starts_with(dir, "/usr/");
        Self::decide(
            suffix,
            in_project,
            under_usr_local,
            under_usr,
            environment.home_dir.is_some(),
            home_config_exists,
        )
    }

    /// Decides the kind of installation from where the executable lies.
    pub fn from_executable(
        suffix: InstallPathSuffix,
        environment: &Environment,
        home_config_exists: bool,
    ) -> (r: InstallPath)
        ensures
            r == Self::spec_from_dir(
                suffix,
                environment.executable_dir@,
                *environment,
                home_config_exists,
            ),
    {
        Self::from_dir(suffix, environment.executable_dir.as_str(), environment, home_config_exists)
    }

    /// The directory whose existence makes an installation a `Home` one:
    /// `<home>/.config/<config_dir>`.
    pub fn home_config_dir(suffix: InstallPathSuffix, home: &str) -> (r: String)
        ensures
            r@ == joined(joined(home@, ".config"@), suffix.config_dir@),
    {
        let dot = join(home, ".config");
        join(dot.as_str(), suffix.config_dir)
    }

    /// The project directory.
    pub fn project_dir(environment: &Environment) -> (r: String)
        ensures
            r@ == environment.project_dir@,
    {
        environment.project_dir.clone()
    }

    /// The user's home directory. The environment must know one.
    pub fn home_dir(environment: &Environment) -> (r: String)
        requires
            environment.home_dir is Some,
        ensures
            r@ == environment.home_dir->0@,
    {
        match &environment.home_dir {
            Some(home) => home.clone(),
            None => String::new(),
        }
    }

    /// True when the installation's directories can be named in this
    /// environment: a `Home` installation needs a home.
    pub open spec fn placed(self, environment: Environment) -> bool {
        self is Home ==> environment.home_dir is Some
    }

    pub open spec fn spec_config_dir(self, environment: Environment) -> Seq<char> {
        let root = match self {
            InstallPath::Project(_) => joined(
                joined(environment.project_dir@, ".local"@),
                "config"@,
            ),
            InstallPath::SystemLocal(_) => joined("/usr/local"@, "etc"@),
            InstallPath::SystemGlobal(_) => joined("/"@, "etc"@),
            InstallPath::Home(_) => joined(environment.home_dir->0@, ".config"@),
            InstallPath::Working(_) => joined(
                joined(environment.working_dir@, ".local"@),
                "config"@,
            ),
        };
        joined(root, self.suffix().config_dir@)
    }

    pub open spec fn spec_data_dir(self, environment: Environment) -> Seq<char> {
        let root = match self {
            InstallPath::Project(_) => joined(joined(environment.project_dir@, ".local"@), "share"@),
            InstallPath::SystemLocal(_) => "/var/local"@,
            InstallPath::SystemGlobal(_) => "/var"@,
            InstallPath::Home(_) => joined(joined(environment.home_dir->0@, ".local"@), "share"@),
            InstallPath::Working(_) => joined(joined(environment.working_dir@, ".local"@), "share"@),
        };
        joined(root, self.suffix().data_dir@)
    }

    /// The directory of the application's configuration.
    pub fn config_dir(&self, environment: &Environment) -> (r: String)
        requires
            self.placed(*environment),
        ensures
            r@ == self.spec_config_dir(*environment),
    {
        match self {
            InstallPath::Project(suffix) => {
                let local = join(environment.project_dir.as_str(), ".local");
                let config = join(local.as_str(), "config");
                join(config.as_str(), suffix.config_dir)
            },
            InstallPath::SystemLocal(suffix) => {
                let etc = join("/usr/local", "etc");
                join(etc.as_str(), suffix.config_dir)
            },
            InstallPath::SystemGlobal(suffix) => {
                let etc = join("/", "etc");
                join(etc.as_str(), suffix.config_dir)
            },
            InstallPath::Home(suffix) => {
                let home = Self::home_dir(environment);
                let config = join(home.as_str(), ".config");
                join(config.as_str(), suffix.config_dir)
            },
            InstallPath::Working(suffix) => {
                let local = join(environment.working_dir.as_str(), ".local");
                let config = join(local.as_str(), "config");
                join(config.as_str(), suffix.config_dir)
            },
        }
    }

    /// The directory of the application's secrets: passwords, private keys
    /// and the like.
    pub fn config_secrets_dir(&self, environment: &Environment) -> (r: String)
        requires
            self.placed(*environment),
        ensures
            r@ == joined(self.spec_config_dir(*environment), "secrets"@),
    {
        let config = self.config_dir(environment);
        join(config.as_str(), "secrets")
    }

    /// The directory of the application's data.
    pub fn data_dir(&self, environment: &Environment) -> (r: String)
        requires
            self.placed(*environment),
        ensures
            r@ == self.spec_data_dir(*environment),
    {
        match self {
            InstallPath::Project(suffix) => {
                let local = join(environment.project_dir.as_str(), ".local");
                let share = join(local.as_str(), "share");
                join(share.as_str(), suffix.data_dir)
            },
            InstallPath::SystemLocal(suffix) => join("/var/local", suffix.data_dir),
            InstallPath::SystemGlobal(suffix) => join("/var", suffix.data_dir),
            InstallPath::Home(suffix) => {
                let home = Self::home_dir(environment);
                let local = join(home.as_str(), ".local");
                let share = join(local.as_str(), "share");
                join(share.as_str(), suffix.data_dir)
            },
            InstallPath::Working(suffix) => {
                let local = join(environment.working_dir.as_str(), ".local");
                let share = join(local.as_str(), "share");
                join(share.as_str(), suffix.data_dir)
            },
        }
    }
}

} // verus!
