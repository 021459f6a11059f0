//! Launch configuration for a child process placed in fresh Linux namespaces:
//! which namespaces it unshares, how its filesystem root is moved, and which
//! signals it receives from and sends to its parent.
//!
//! A malformed root transition (a relative path, or a pivot whose old root
//! would not lie under the new root) is reported as a `RootError` when it is
//! configured, and leaves the configuration as it was.

mod command;
pub mod laws;
mod namespace;
mod path;

pub use command::{Command, CommandView, PivotRoot, RootError};
pub use namespace::Namespace;
pub use path::{is_absolute_path, is_path_prefix, path_components};
