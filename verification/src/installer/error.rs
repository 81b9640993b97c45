//! Why the installation failed.

use crate::path::FsPath;
use vstd::prelude::*;

verus! {

/// Why the installation failed.
#[derive(Debug)]
pub enum Error {
    /// A file or process operation failed; the operating system's message.
    IoError(String),
    /// A command ran and reported failure; what it printed.
    CommandFailed { command: FsPath, stdout: String, stderr: String },
    /// The window could not be built; the toolkit's message.
    NwgError(String),
    /// A report could not reach the window; the channel's message.
    SendError(String),
}

impl Error {
    /// The text that describes the error, where the path of a failed command
    /// reads `command_text` (its `Debug` form on the platform).
    pub open spec fn text(&self, command_text: Seq<char>) -> Seq<char> {
        match self {
            Error::IoError(m) => m@,
            Error::CommandFailed { .. } => "Nepavyko įvykdyti komandos: "@ + command_text,
            Error::NwgError(m) => m@,
            Error::SendError(m) => m@,
        }
    }

    /// The text that describes the error (its `Display`), where the path of
    /// a failed command reads `command_text`.
    pub fn message(&self, command_text: &str) -> (res: String)
        ensures
            res@ == self.text(command_text@),
    {
        match self {
            Error::IoError(m) => m.clone(),
            Error::CommandFailed { .. } => String::from_str("Nepavyko įvykdyti komandos: ").concat(
                command_text,
            ),
            Error::NwgError(m) => m.clone(),
            Error::SendError(m) => m.clone(),
        }
    }
}

} // verus!
