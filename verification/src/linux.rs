//! Where an application keeps its configuration and its data, by the way it
//! was installed.

pub mod installpath;

pub use installpath::{Environment, InstallPath, InstallPathSuffix};
