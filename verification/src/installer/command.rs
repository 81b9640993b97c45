//! Running the bundled installers.

use crate::installer::error::Error;
use crate::path::FsPath;
use crate::process::ProcessOutput;
use crate::text::{string_from_utf8_lossy, utf8_lossy};
use vstd::prelude::*;

verus! {

/// The outcome of running `command`: success exactly when it exited
/// successfully; otherwise what it printed, decoded leniently.
pub fn run_command(command: &FsPath, output: Result<ProcessOutput, String>) -> (res: Result<
    (),
    Error,
>)
    ensures
        output matches Err(e) ==> (res matches Err(Error::IoError(m)) && m@ == e@),
        output matches Ok(o) ==> (o.success <==> res is Ok),
        output matches Ok(o) ==> (!o.success ==> (res matches Err(
            Error::CommandFailed { command: c, stdout, stderr },
        ) && c@ == command@ && stdout@ == utf8_lossy(o.stdout@) && stderr@ == utf8_lossy(
            o.stderr@,
        ))),
{
    match output {
        Err(e) => Err(Error::IoError(e)),
        Ok(o) => {
            let stdout = string_from_utf8_lossy(&o.stdout);
            let stderr = string_from_utf8_lossy(&o.stderr);
            if o.success {
                Ok(())
            } else {
                Err(Error::CommandFailed { command: command.duplicate(), stdout, stderr })
            }
        },
    }
}

/// Where the bundled files are unpacked.
pub struct State {
    pub python_installer: FsPath,
    pub vscode_installer: FsPath,
    pub wrapper_bin: FsPath,
}

impl State {
    /// The places of the bundled files in the directory `extract_dir`.
    pub fn new(extract_dir: &FsPath) -> (res: State)
        ensures
            res.python_installer@ == extract_dir@.join("PythonInstaller.exe"@),
            res.vscode_installer@ == extract_dir@.join("VSCodeSetup.exe"@),
            res.wrapper_bin@ == extract_dir@.join("wrapper.exe"@),
    {
        State {
            python_installer: extract_dir.join("PythonInstaller.exe"),
            vscode_installer: extract_dir.join("VSCodeSetup.exe"),
            wrapper_bin: extract_dir.join("wrapper.exe"),
        }
    }
}

} // verus!
