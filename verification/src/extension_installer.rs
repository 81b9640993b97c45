//! The state of the earlier installation window, which installs the
//! extensions one by one.

use crate::path::{FsPath, PathView};
use crate::process::{Invocation, InvocationView, ProcessOutput};
use vstd::prelude::*;

verus! {

/// The installation window's state.
pub struct ExtensionInstaller {
    /// The identifiers of the extensions to install, in order.
    pub extensions_to_install: Vec<String>,
    /// The index of the extension being installed.
    pub currently_installing: usize,
    pub vscode_exe: FsPath,
}

/// A message to the installation window.
#[derive(Debug, Clone, Copy)]
pub enum Message {
    /// An installation command has finished.
    ExtensionInstalled,
}

/// What the installation window is started with.
pub struct Flags {
    pub extensions_to_install: Vec<String>,
    pub vscode_exe: FsPath,
}

/// What the window does after a message.
pub enum UpdateAction {
    /// Run this command, then report `Message::ExtensionInstalled`.
    Perform(Invocation),
    /// Every extension is done: start VS Code with this program's arguments
    /// and exit.
    LaunchVsCode,
}

/// The command that this window runs for each extension: as the window
/// stands, `ls` with no arguments, after a pause of five seconds (the
/// command-line script of VS Code is not run).
pub open spec fn placeholder_command() -> InvocationView {
    InvocationView {
        program: PathView { root: ""@, names: seq!["ls"@] },
        env: seq![],
        args: seq![],
    }
}

/// The command that is run in place of VS Code's command-line script with
/// `args`.
pub fn create_vs_code_command(vscode_exe: &FsPath, args: &Vec<String>) -> (res: Invocation)
    ensures
        res@ == placeholder_command(),
{
    let mut names: Vec<String> = Vec::new();
    names.push(String::from_str("ls"));
    let program = FsPath::new("", &names);
    let res = Invocation { program, env: Vec::new(), args: Vec::new() };
    assert(res@.program.names == seq!["ls"@]);
    assert(res@.env == Seq::<(Seq<char>, Seq<char>)>::empty());
    assert(res@.args =~= seq![]);
    res
}

/// The command that installs `extension`.
pub fn create_install_extension_command(vscode_exe: &FsPath, extension: &str) -> (res: Invocation)
    ensures
        res@ == placeholder_command(),
{
    let mut args: Vec<String> = Vec::new();
    args.push(String::from_str(""));
    args.push(String::from_str("--install-extension"));
    args.push(String::from_str(extension));
    create_vs_code_command(vscode_exe, &args)
}

/// The message that a finished installation command sends: whatever the
/// command's outcome, `ExtensionInstalled`.
pub fn handle_installation_result(result: Result<ProcessOutput, String>) -> (res: Message)
    ensures
        res is ExtensionInstalled,
{
    Message::ExtensionInstalled
}

impl ExtensionInstaller {
    /// The index of the extension being installed is within the list, or
    /// just past it when all are done.
    pub open spec fn well_formed(&self) -> bool {
        self.currently_installing <= self.extensions_to_install@.len()
    }

    /// The command that installs the extension at `currently_installing`.
    pub fn next_command(&self) -> (res: Invocation)
        requires
            self.currently_installing < self.extensions_to_install@.len(),
        ensures
            res@ == placeholder_command(),
    {
        create_install_extension_command(
            &self.vscode_exe,
            self.extensions_to_install[self.currently_installing].as_str(),
        )
    }

    /// The window at its start, installing the first extension, and the
    /// command that installs it.
    pub fn new(flags: Flags) -> (res: (ExtensionInstaller, Invocation))
        requires
            flags.extensions_to_install@.len() > 0,
        ensures
            res.0.extensions_to_install@ == flags.extensions_to_install@,
            res.0.currently_installing == 0,
            res.0.vscode_exe@ == flags.vscode_exe@,
            res.0.well_formed(),
            res.1@ == placeholder_command(),
    {
        let installer = ExtensionInstaller {
            extensions_to_install: flags.extensions_to_install,
            currently_installing: 0,
            vscode_exe: flags.vscode_exe,
        };
        let command = installer.next_command();
        (installer, command)
    }

    /// The window's title.
    pub fn title(&self) -> (res: String)
        ensures
            res@ == "Smauglys – diegiami VS Code papildiniai"@,
    {
        String::from_str("Smauglys – diegiami VS Code papildiniai")
    }

    /// Takes in a message.  The index of the extension being installed is
    /// not advanced, so the state does not change; when the index is past
    /// the last extension VS Code is started, and otherwise the extension at
    /// the index is installed (again).
    pub fn update(&mut self, message: Message) -> (res: UpdateAction)
        requires
            old(self).well_formed(),
        ensures
            final(self).extensions_to_install@ == old(self).extensions_to_install@,
            final(self).currently_installing == old(self).currently_installing,
            final(self).vscode_exe == old(self).vscode_exe,
            old(self).currently_installing == old(self).extensions_to_install@.len() ==> res is LaunchVsCode,
            old(self).currently_installing < old(self).extensions_to_install@.len() ==> (res matches UpdateAction::Perform(c) && c@ == placeholder_command()),
    {
        match message {
            Message::ExtensionInstalled => {},
        }
        if self.currently_installing == self.extensions_to_install.len() {
            UpdateAction::LaunchVsCode
        } else {
            UpdateAction::Perform(self.next_command())
        }
    }
}

} // verus!
