//! Scaffolding for new Gleam projects: project-name validation and the
//! directory tree and boilerplate files of a fresh project, computed as plain
//! values for a caller to write to disk.

pub mod creator;
pub mod error;
pub mod generation;
pub mod name;
pub mod path;
pub mod template;
pub mod text;

pub use creator::{Creator, NewOptions, ProjectFile, Step};
pub use error::Error;
pub use generation::{create, Generation};
pub use name::{validate_name, InvalidProjectNameReason, NameTables};
pub use path::ProjectPath;
pub use template::Template;
