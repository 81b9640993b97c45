//! The steps of the installation and their reports.

use crate::installer::gui::Message;
use crate::path::FsPath;
use vstd::prelude::*;

verus! {

/// Where the bundled installers are unpacked.
pub struct State {
    pub python_installer: FsPath,
    pub vscode_installer: FsPath,
    pub root_dir: FsPath,
}

impl State {
    /// The places of the bundled installers in the directory `extract_dir`.
    pub fn new(extract_dir: &FsPath) -> (res: State)
        ensures
            res.root_dir@ == extract_dir@,
            res.python_installer@ == extract_dir@.join("PythonInstaller.exe"@),
            res.vscode_installer@ == extract_dir@.join("VSCodeSetup.exe"@),
    {
        State {
            root_dir: extract_dir.duplicate(),
            python_installer: extract_dir.join("PythonInstaller.exe"),
            vscode_installer: extract_dir.join("VSCodeSetup.exe"),
        }
    }
}

/// A step of the installation that is done.
pub enum Stage {
    PythonInstalled,
    VsCodeInstalled,
    Done,
}

/// The report that the window gets when `stage` is done.
pub fn report(stage: Stage) -> (res: Message)
    ensures
        stage is PythonInstalled ==> (res matches Message::ProgressUpdate { progress, details }
            && progress == 1 && details@ == "Python įdiegtas"@),
        stage is VsCodeInstalled ==> (res matches Message::ProgressUpdate { progress, details }
            && progress == 1 && details@ == "VS Code įdiegtas"@),
        stage is Done ==> res is Finished,
{
    match stage {
        Stage::PythonInstalled => Message::ProgressUpdate {
            progress: 1,
            details: String::from_str("Python įdiegtas"),
        },
        Stage::VsCodeInstalled => Message::ProgressUpdate {
            progress: 1,
            details: String::from_str("VS Code įdiegtas"),
        },
        Stage::Done => Message::Finished,
    }
}

/// The report that the window gets when the installation failed with the
/// error that reads `error_text`.
pub fn abort_report(error_text: &str) -> (res: Message)
    ensures
        res matches Message::Abort(m) && m@ == "Įvyko klaida: "@ + error_text@,
{
    Message::Abort(String::from_str("Įvyko klaida: ").concat(error_text))
}

} // verus!
