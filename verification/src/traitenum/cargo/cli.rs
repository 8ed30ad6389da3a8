//! The command line of the addon, as values.

use vstd::prelude::*;
use crate::text::text_of;

verus! {

pub struct Cli {
    pub quiet: bool,
    pub module: CommandModules,
}

pub enum CommandModules {
    Workspace(WorkspaceCommandModule),
    Trait(TraitCommandModule),
}

/// Manage workspaces.
pub struct WorkspaceCommandModule {
    pub command: WorkspaceCommands,
}

/// Manage traits.
pub struct TraitCommandModule {
    pub command: TraitCommands,
}

pub enum WorkspaceCommands {
    /// Create a new workspace containing traits and derive macros.
    New(NewWorkspaceCommand),
    /// Create new lib and derive packages in an existing workspace.
    Init(InitWorkspaceCommand),
}

pub enum TraitCommands {
    Add(AddTraitCommand),
    Remove(RemoveTraitCommand),
}

pub struct WorkspaceCommand {
    pub workspace_path: Option<String>,
    pub lib_name: Option<String>,
    pub derive_name: Option<String>,
    pub lib_dir: String,
    pub derive_dir: String,
}

impl WorkspaceCommand {
    /// The options as they stand when none is given: the packages go to
    /// `lib` and `derive`.
    pub fn defaults() -> (r: Self)
        ensures
            r.workspace_path is None,
            r.lib_name is None,
            r.derive_name is None,
            r.lib_dir@ == "lib"@,
            r.derive_dir@ == "derive"@,
    {
        WorkspaceCommand {
            workspace_path: None,
            lib_name: None,
            derive_name: None,
            lib_dir: String::from_str("lib"),
            derive_dir: String::from_str("derive"),
        }
    }
}

pub struct NewWorkspaceCommand {
    pub workspace_name: String,
    pub library: WorkspaceCommand,
}

pub struct InitWorkspaceCommand {
    pub library_name: String,
    pub module: WorkspaceCommand,
}

pub struct TraitCommand {
    pub trait_name: String,
    pub workspace_path: Option<String>,
    pub library_name: Option<String>,
}

/// Add a new trait and derive macro to an existing workspace.
pub struct AddTraitCommand {
    pub module: TraitCommand,
}

/// Remove an existing trait and derive macro from an existing workspace.
pub struct RemoveTraitCommand {
    pub module: TraitCommand,
}

/// What the `syn` crate objects to when it reads a text as one identifier:
/// `None` where the text is an identifier, else the message of its error.
pub uninterp spec fn ident_objection(s: Seq<char>) -> Option<Seq<char>>;

/// Parses `s` as a `syn::Ident` with `syn::parse_str` and, where that fails,
/// renders the error. Trusted: the outcome is a function of the text alone,
/// named `ident_objection`.
#[verifier::external_body]
fn parse_ident(s: &str) -> (r: Option<String>)
    ensures
        text_of(r) == ident_objection(s@),
{
    syn::parse_str::<syn::Ident>(s).err().map(|e| e.to_string())
}

/// Accepts a trait's name if it is an identifier, and hands it back; else
/// returns the parser's message.
pub fn validate_ident(s: &str) -> (r: Result<String, String>)
    ensures
        match ident_objection(s@) {
            None => r is Ok && r->Ok_0@ == s@,
            Some(message) => r is Err && r->Err_0@ == message,
        },
{
    match parse_ident(s) {
        None => Ok(String::from_str(s)),
        Some(message) => Err(message),
    }
}

} // verus!
