//! The command-line intent: provide a file under a name, or get a named file.

use vstd::prelude::*;

verus! {

/// The subcommand the application driver interprets.
#[derive(Debug)]
pub enum CliArgument {
    /// Advertise `name` and answer matching requests with the file at `path`.
    Provide { path: String, name: String },
    /// Resolve the providers of `name` and fetch its content.
    Get { name: String },
}

} // verus!
