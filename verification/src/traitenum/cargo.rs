//! The cargo addon that lays out and maintains a workspace of such traits.

use vstd::prelude::*;
use crate::traitenum::cargo::cli::{
    AddTraitCommand, Cli, CommandModules, InitWorkspaceCommand, NewWorkspaceCommand,
    RemoveTraitCommand, TraitCommands, WorkspaceCommands,
};

pub mod cli;
pub mod cmd;
pub mod manifest;
pub mod meta;

verus! {

/// What every line of the addon's log starts with.
pub const LOG_PREFIX: &'static str = "[traitenum] ";

/// What can go wrong in the addon. Paths are given as text.
#[derive(Debug, PartialEq, Eq)]
pub enum Errors {
    SourceParsing(String, String),
    InvalidArgument(String, String, String),
    DuplicateTrait(String, String),
    UnknownTrait(String, String),
    MisconfiguredCargoMetadata(String),
    AmbiguousLibrary,
    LibraryNotFound(String),
    CargoManifestExists(String),
    NoCargoManifestExists(String),
    InvalidCargoMetadata(String, String),
    InvalidCargoManifest(String),
    InvalidCargoManifestKey(String, String),
    MissingCargoMetadata(String, String),
    NoCargoWorkspaceExists(String),
    CargoManifestNotWorkspace(String),
    CargoRunError,
    RustfmtRunError,
    CargoNewError(String),
    CargoAddError(String, String),
    CargoError(String),
}

impl Errors {
    pub open spec fn spec_text(self) -> Seq<char> {
        match self {
            Errors::SourceParsing(a, b) => "Unable to parse source-code. "@ + a@ + ": "@ + b@,
            Errors::InvalidArgument(a, b, c) => "Invalid argument for `"@ + a@ + "` ("@ + b@
                + "): "@ + c@,
            Errors::DuplicateTrait(a, b) => "Trait already exists in library `"@ + b@ + "`: "@
                + a@,
            Errors::UnknownTrait(a, b) => "Trait does not exist in library `"@ + b@ + "`: "@ + a@,
            Errors::MisconfiguredCargoMetadata(a) => "Misconfigured cargo metadata: "@ + a@,
            Errors::AmbiguousLibrary => "Missing --library-name argument (Multiple libraries exist)"@,
            Errors::LibraryNotFound(a) => "Library not found: "@ + a@,
            Errors::CargoManifestExists(a) =>
                "A cargo manifest already exists for path (Try `init` to add workspace members): "@
                + a@,
            Errors::NoCargoManifestExists(a) => "A cargo manifest cannot be found for path: "@
                + a@,
            Errors::InvalidCargoMetadata(a, b) => "Invalid metadata for `"@ + a@
                + "` in cargo manifest dir: "@ + b@,
            Errors::InvalidCargoManifest(a) => "Unable to parse cargo manifest: "@ + a@,
            Errors::InvalidCargoManifestKey(a, b) => "Unable to parse cargo manifest for key `"@
                + a@ + "`: "@ + b@,
            Errors::MissingCargoMetadata(a, b) => "Missing metadata for `"@ + a@
                + "` in cargo manifest dir: "@ + b@,
            Errors::NoCargoWorkspaceExists(a) => "A cargo workspace cannot be found for path: "@
                + a@,
            Errors::CargoManifestNotWorkspace(a) => "The cargo manifest is not a workspace: "@
                + a@,
            Errors::CargoRunError => "Unable to run command: cargo"@,
            Errors::RustfmtRunError => "Unable to run command: rustfmt"@,
            Errors::CargoNewError(a) => "Command `cargo new` failed: "@ + a@,
            Errors::CargoAddError(a, b) => "Command `cargo add` failed for `"@ + a@ + "`: "@ + b@,
            Errors::CargoError(a) => "Command `cargo "@ + a@ + "` failed"@,
        }
    }

    /// The message of the error.
    pub fn to_text(&self) -> (r: String)
        ensures
            r@ == self.spec_text(),
    {
        let r = match self {
            Errors::SourceParsing(a, b) => String::from_str(
                "Unable to parse source-code. ",
            ).concat(a.as_str()).concat(": ").concat(b.as_str()),
            Errors::InvalidArgument(a, b, c) => String::from_str("Invalid argument for `").concat(
                a.as_str(),
            ).concat("` (").concat(b.as_str()).concat("): ").concat(c.as_str()),
            Errors::DuplicateTrait(a, b) => String::from_str(
                "Trait already exists in library `",
            ).concat(b.as_str()).concat("`: ").concat(a.as_str()),
            Errors::UnknownTrait(a, b) => String::from_str(
                "Trait does not exist in library `",
            ).concat(b.as_str()).concat("`: ").concat(a.as_str()),
            Errors::MisconfiguredCargoMetadata(a) => String::from_str(
                "Misconfigured cargo metadata: ",
            ).concat(a.as_str()),
            Errors::AmbiguousLibrary => String::from_str(
                "Missing --library-name argument (Multiple libraries exist)",
            ),
            Errors::LibraryNotFound(a) => String::from_str("Library not found: ").concat(
                a.as_str(),
            ),
            Errors::CargoManifestExists(a) => String::from_str(
                "A cargo manifest already exists for path (Try `init` to add workspace members): ",
            ).concat(a.as_str()),
            Errors::NoCargoManifestExists(a) => String::from_str(
                "A cargo manifest cannot be found for path: ",
            ).concat(a.as_str()),
            Errors::InvalidCargoMetadata(a, b) => String::from_str("Invalid metadata for `").concat(
                a.as_str(),
            ).concat("` in cargo manifest dir: ").concat(b.as_str()),
            Errors::InvalidCargoManifest(a) => String::from_str(
                "Unable to parse cargo manifest: ",
            ).concat(a.as_str()),
            Errors::InvalidCargoManifestKey(a, b) => String::from_str(
                "Unable to parse cargo manifest for key `",
            ).concat(a.as_str()).concat("`: ").concat(b.as_str()),
            Errors::MissingCargoMetadata(a, b) => String::from_str("Missing metadata for `").concat(
                a.as_str(),
            ).concat("` in cargo manifest dir: ").concat(b.as_str()),
            Errors::NoCargoWorkspaceExists(a) => String::from_str(
                "A cargo workspace cannot be found for path: ",
            ).concat(a.as_str()),
            Errors::CargoManifestNotWorkspace(a) => String::from_str(
                "The cargo manifest is not a workspace: ",
            ).concat(a.as_str()),
            Errors::CargoRunError => String::from_str("Unable to run command: cargo"),
            Errors::RustfmtRunError => String::from_str("Unable to run command: rustfmt"),
            Errors::CargoNewError(a) => String::from_str("Command `cargo new` failed: ").concat(
                a.as_str(),
            ),
            Errors::CargoAddError(a, b) => String::from_str("Command `cargo add` failed for `").concat(
                a.as_str(),
            ).concat("`: ").concat(b.as_str()),
            Errors::CargoError(a) => String::from_str("Command `cargo ").concat(a.as_str()).concat(
                "` failed",
            ),
        };
        assert(r@ =~= self.spec_text());
        r
    }
}

/// A line of the log: the prefix, then the message.
pub fn log_line(msg: &str) -> (r: String)
    ensures
        r@ == LOG_PREFIX@ + msg@,
{
    String::from_str(LOG_PREFIX).concat(msg)
}

/// The work that a command line asks for.
///
/// Each kind of work comes with its arguments and with whether it is to be
/// done quietly; adding a trait also with whether the trait gets a sample method.
pub enum Action {
    NewWorkspace(NewWorkspaceCommand, bool),
    InitWorkspace(InitWorkspaceCommand, bool),
    AddTrait(AddTraitCommand, bool, bool),
    RemoveTrait(RemoveTraitCommand, bool),
}

/// Picks the work that a command line asks for. A trait is always added with
/// a sample method.
pub fn run(cli: Cli) -> (r: Action)
    ensures
        r == match cli.module {
            CommandModules::Workspace(module) => match module.command {
                WorkspaceCommands::New(args) => Action::NewWorkspace(args, cli.quiet),
                WorkspaceCommands::Init(args) => Action::InitWorkspace(args, cli.quiet),
            },
            CommandModules::Trait(module) => match module.command {
                TraitCommands::Add(args) => Action::AddTrait(args, cli.quiet, true),
                TraitCommands::Remove(args) => Action::RemoveTrait(args, cli.quiet),
            },
        },
{
    let quiet = cli.quiet;
    match cli.module {
        CommandModules::Workspace(module) => match module.command {
            WorkspaceCommands::New(args) => Action::NewWorkspace(args, quiet),
            WorkspaceCommands::Init(args) => Action::InitWorkspace(args, quiet),
        },
        CommandModules::Trait(module) => match module.command {
            TraitCommands::Add(args) => Action::AddTrait(args, quiet, true),
            TraitCommands::Remove(args) => Action::RemoveTrait(args, quiet),
        },
    }
}

} // verus!
