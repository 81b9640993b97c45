//! The installation state of each extension, and the list of them that the
//! installer works through.

use crate::code::{
    get_installed_extensions_command, install_extension_command, vs_code_command, GetExtError,
    InstallExtError,
};
use crate::path::{FsPath, PathView};
use crate::process::Invocation;
use crate::text::string_views;
use vstd::prelude::*;

verus! {

/// What runs after an extension has been installed.
#[derive(Clone, Copy, PartialEq, Eq, Structural)]
pub enum PostInstall {
    /// After the Python extension.
    Python,
    /// After the Lithuanian language pack.
    VscodeLanguagePackLt,
}

/// An extension that the wrapper makes sure is installed.
pub struct Extension {
    /// The unique identifier of the extension.
    pub identifier: String,
    /// What to run after the installation, if anything.
    pub post_install: Option<PostInstall>,
}

/// Where the installation of one extension stands.
pub enum ExtensionState {
    Unknown,
    ToBeInstalled,
    Installed,
    InstallationError(String),
}

/// The mathematical value of an `ExtensionState`.
pub enum StateView {
    Unknown,
    ToBeInstalled,
    Installed,
    InstallationError(Seq<char>),
}

impl View for ExtensionState {
    type V = StateView;

    open spec fn view(&self) -> StateView {
        match self {
            ExtensionState::Unknown => StateView::Unknown,
            ExtensionState::ToBeInstalled => StateView::ToBeInstalled,
            ExtensionState::Installed => StateView::Installed,
            ExtensionState::InstallationError(m) => StateView::InstallationError(m@),
        }
    }
}

impl StateView {
    /// Whether nothing is left to do for the extension.
    pub open spec fn finished(self) -> bool {
        self is Installed || self is InstallationError
    }

    /// How the state reads to the user.
    pub open spec fn text(self) -> Seq<char> {
        match self {
            StateView::Unknown => "tikrinama"@,
            StateView::ToBeInstalled => "diegiama"@,
            StateView::Installed => "sėkmingai įdiegta"@,
            StateView::InstallationError(m) => "diegimas nepavyko\r\n  "@ + m,
        }
    }
}

impl ExtensionState {
    /// How the state reads to the user (its `Display`).
    pub fn text(&self) -> (res: String)
        ensures
            res@ == self@.text(),
    {
        match self {
            ExtensionState::Unknown => String::from_str("tikrinama"),
            ExtensionState::ToBeInstalled => String::from_str("diegiama"),
            ExtensionState::Installed => String::from_str("sėkmingai įdiegta"),
            ExtensionState::InstallationError(message) => {
                String::from_str("diegimas nepavyko\r\n  ").concat(message.as_str())
            },
        }
    }
}

/// One extension together with where its installation stands.
pub struct ExtensionInstaller {
    /// The unique identifier of the extension.
    pub identifier: String,
    /// What to run after the installation, if anything.
    pub post_install: Option<PostInstall>,
    pub state: ExtensionState,
}

/// The mathematical value of an `ExtensionInstaller`.
pub struct InstallerView {
    pub identifier: Seq<char>,
    pub post_install: Option<PostInstall>,
    pub state: StateView,
}

impl View for ExtensionInstaller {
    type V = InstallerView;

    open spec fn view(&self) -> InstallerView {
        InstallerView {
            identifier: self.identifier@,
            post_install: self.post_install,
            state: self.state@,
        }
    }
}

impl InstallerView {
    /// The line that reports this extension to the user.
    pub open spec fn line(self) -> Seq<char> {
        "Papildinys "@ + self.identifier + ": "@ + self.state.text() + "\r\n"@
    }
}

impl ExtensionInstaller {
    /// The line that reports this extension to the user.
    pub fn state_as_line(&self) -> (res: String)
        ensures
            res@ == self@.line(),
    {
        String::from_str("Papildinys ").concat(self.identifier.as_str()).concat(": ").concat(
            self.state.text().as_str(),
        ).concat("\r\n")
    }

    /// Whether nothing is left to do for this extension.
    pub fn is_finished(&self) -> (res: bool)
        ensures
            res == self@.state.finished(),
    {
        match self.state {
            ExtensionState::Unknown | ExtensionState::ToBeInstalled => false,
            ExtensionState::Installed | ExtensionState::InstallationError(_) => true,
        }
    }

    /// This installer with its state replaced.
    fn with_state(&self, state: ExtensionState) -> (res: ExtensionInstaller)
        ensures
            res@ == (InstallerView { state: state@, ..self@ }),
    {
        ExtensionInstaller {
            identifier: self.identifier.clone(),
            post_install: self.post_install,
            state,
        }
    }
}

impl<'a> From<&'a Extension> for ExtensionInstaller {
    /// The installer of `extension`, whose state is not known yet.
    fn from(extension: &'a Extension) -> (res: ExtensionInstaller) {
        ExtensionInstaller {
            identifier: extension.identifier.clone(),
            post_install: extension.post_install,
            state: ExtensionState::Unknown,
        }
    }
}

impl<'a> vstd::std_specs::convert::FromSpecImpl<&'a Extension> for ExtensionInstaller {
    open spec fn obeys_from_spec() -> bool {
        true
    }

    open spec fn from_spec(extension: &'a Extension) -> ExtensionInstaller {
        ExtensionInstaller {
            identifier: extension.identifier,
            post_install: extension.post_install,
            state: ExtensionState::Unknown,
        }
    }
}

/// The views of a sequence of installers.
pub open spec fn installer_views(s: Seq<ExtensionInstaller>) -> Seq<InstallerView> {
    s.map_values(|e: ExtensionInstaller| e@)
}

/// How many of the extensions are finished.
pub open spec fn count_finished(s: Seq<InstallerView>) -> nat
    decreases s.len(),
{
    if s.len() == 0 {
        0
    } else {
        count_finished(s.drop_last()) + if s.last().state.finished() {
            1nat
        } else {
            0nat
        }
    }
}

/// Whether every extension is finished.
pub open spec fn all_finished(s: Seq<InstallerView>) -> bool {
    forall|i: int| 0 <= i < s.len() ==> #[trigger] s[i].state.finished()
}

/// The report lines of all extensions, in order.
pub open spec fn state_lines(s: Seq<InstallerView>) -> Seq<char>
    decreases s.len(),
{
    if s.len() == 0 {
        seq![]
    } else {
        state_lines(s.drop_last()) + s.last().line()
    }
}

/// `i` is the first extension that is not finished.
pub open spec fn is_first_pending(s: Seq<InstallerView>, i: int) -> bool {
    &&& 0 <= i < s.len()
    &&& !s[i].state.finished()
    &&& forall|j: int| 0 <= j < i ==> #[trigger] s[j].state.finished()
}

/// The state of an extension once the list of installed extensions is known.
pub open spec fn initial_state(identifier: Seq<char>, installed: Seq<Seq<char>>) -> StateView {
    if installed.contains(identifier) {
        StateView::Installed
    } else {
        StateView::ToBeInstalled
    }
}

/// What a post-installation step asks of VS Code once it has succeeded.
pub enum PostInstallEffect {
    /// Nothing more.
    Nothing,
    /// Set VS Code's display language to this locale.
    SetLocale(String),
}

/// The mathematical value of a `PostInstallEffect`.
pub enum EffectView {
    Nothing,
    SetLocale(Seq<char>),
}

impl View for PostInstallEffect {
    type V = EffectView;

    open spec fn view(&self) -> EffectView {
        match self {
            PostInstallEffect::Nothing => EffectView::Nothing,
            PostInstallEffect::SetLocale(l) => EffectView::SetLocale(l@),
        }
    }
}

/// What a post-installation step yields: the Python step has nothing to do;
/// the language pack's step asks for the Lithuanian locale, `lt`.  Both
/// succeed.
pub open spec fn post_install_result(step: PostInstall) -> Result<EffectView, Seq<char>> {
    match step {
        PostInstall::Python => Ok(EffectView::Nothing),
        PostInstall::VscodeLanguagePackLt => Ok(EffectView::SetLocale("lt"@)),
    }
}

/// The state of an extension after an attempt to install it.
pub open spec fn installed_state(
    outcome: Result<(), InstallExtError>,
    post_install: Option<PostInstall>,
) -> StateView {
    match outcome {
        Ok(()) => match post_install {
            Some(step) => match post_install_result(step) {
                Ok(_) => StateView::Installed,
                Err(m) => StateView::InstallationError(m),
            },
            None => StateView::Installed,
        },
        Err(InstallExtError::IoError(e)) => StateView::InstallationError("Klaida: "@ + e@),
        Err(InstallExtError::ExecutionFailed { stdout, stderr }) => StateView::InstallationError(
            "VS Code derinimo informacija:\r\n"@ + stdout@ + "\r\n"@ + stderr@ + "\r\n"@,
        ),
    }
}

/// The extensions after the first pending one, `i`, was attempted with
/// `outcome`: its state is the outcome's, and nothing else changes.
pub open spec fn after_install(
    s: Seq<InstallerView>,
    i: int,
    outcome: Result<(), InstallExtError>,
) -> Seq<InstallerView> {
    s.update(i, InstallerView { state: installed_state(outcome, s[i].post_install), ..s[i] })
}

/// What the post-installation step of the first pending extension of `s`
/// asks for once it was installed with `outcome`: nothing when none is
/// pending, when the installation failed, or when the extension has no such
/// step.
pub open spec fn install_effect(s: Seq<InstallerView>, outcome: Result<(), InstallExtError>) -> EffectView {
    if exists|i: int| is_first_pending(s, i) {
        let i = choose|i: int| is_first_pending(s, i);
        match (outcome, s[i].post_install) {
            (Ok(()), Some(step)) => match post_install_result(step) {
                Ok(e) => e,
                Err(_) => EffectView::Nothing,
            },
            _ => EffectView::Nothing,
        }
    } else {
        EffectView::Nothing
    }
}

/// The mathematical value of an `ExtensionInstallerList`.
pub struct ListView {
    pub vscode_exe: PathView,
    pub installers: Seq<InstallerView>,
    pub initialized: bool,
    pub abort_message: Option<Seq<char>>,
}

/// The installed extensions that VS Code reported, or the text of the error
/// that kept it from reporting them.
pub open spec fn lookup_view(installed: Result<Vec<String>, GetExtError>) -> Result<
    Seq<Seq<char>>,
    Seq<char>,
> {
    match installed {
        Ok(list) => Ok(string_views(list@)),
        Err(e) => Err(e.text()),
    }
}

/// The list after the lookup of the installed extensions: each extension
/// is installed or still to be installed; when the lookup failed, the
/// installation is given up and nothing else changes.
pub open spec fn lookup_step(l: ListView, installed: Result<Seq<Seq<char>>, Seq<char>>) -> ListView {
    match installed {
        Err(e) => ListView { abort_message: Some("Nepavyko paleisti VS Code: "@ + e), ..l },
        Ok(list) => ListView {
            installers: Seq::new(
                l.installers.len(),
                |i: int| InstallerView { state: initial_state(l.installers[i].identifier, list), ..l.installers[i] },
            ),
            initialized: true,
            ..l
        },
    }
}

/// The list after an installation attempt with `outcome`: the first pending
/// extension takes the outcome's state; when none is pending, nothing
/// changes.
pub open spec fn install_step(l: ListView, outcome: Result<(), InstallExtError>) -> ListView {
    if exists|i: int| is_first_pending(l.installers, i) {
        ListView {
            installers: after_install(
                l.installers,
                choose|i: int| is_first_pending(l.installers, i),
                outcome,
            ),
            ..l
        }
    } else {
        l
    }
}

/// The list after one step of the installer, the step that
/// `process_next_action` chooses: the lookup, with the result `installed`,
/// until the list is initialized, then an installation with `outcome`.
pub open spec fn action_step(
    l: ListView,
    installed: Result<Seq<Seq<char>>, Seq<char>>,
    outcome: Result<(), InstallExtError>,
) -> ListView {
    if !l.initialized {
        lookup_step(l, installed)
    } else {
        install_step(l, outcome)
    }
}

/// The list as `new` makes it from `extensions` and `vscode_exe`.
pub open spec fn fresh_list(extensions: Seq<Extension>, vscode_exe: PathView) -> ListView {
    ListView {
        vscode_exe: vscode_exe,
        installers: Seq::new(
            extensions.len(),
            |i: int|
                InstallerView {
                    identifier: extensions[i].identifier@,
                    post_install: extensions[i].post_install,
                    state: StateView::Unknown,
                },
        ),
        initialized: false,
        abort_message: None,
    }
}

/// What the installer has to do next.
pub enum NextAction {
    /// Ask VS Code for its installed extensions, then `initialize`.
    ListInstalled(Invocation),
    /// Install the first extension that is not finished, then
    /// `install_next_extension`.
    Install(Invocation),
    /// Nothing is left to do.
    Nothing,
}

/// The installation of a list of extensions, driven step by step.
pub struct ExtensionInstallerList {
    pub vscode_exe: FsPath,
    pub installers: Vec<ExtensionInstaller>,
    /// Whether the installed extensions have been looked up.
    pub initialized: bool,
    /// Why the installation was given up, if it was.
    pub abort_message: Option<String>,
}

impl View for ExtensionInstallerList {
    type V = ListView;

    open spec fn view(&self) -> ListView {
        ListView {
            vscode_exe: self.vscode_exe@,
            installers: installer_views(self.installers@),
            initialized: self.initialized,
            abort_message: match self.abort_message {
                Some(m) => Some(m@),
                None => None,
            },
        }
    }
}

fn first_pending(installers: &Vec<ExtensionInstaller>) -> (res: Option<usize>)
    ensures
        res matches Some(i) ==> is_first_pending(installer_views(installers@), i as int),
        res is None ==> all_finished(installer_views(installers@)),
{
    let ghost s = installer_views(installers@);
    let mut i: usize = 0;
    while i < installers.len()
        invariant
            i <= installers.len(),
            s == installer_views(installers@),
            forall|j: int| 0 <= j < i ==> #[trigger] s[j].state.finished(),
        decreases installers.len() - i,
    {
        if !installers[i].is_finished() {
            return Some(i);
        }
        i = i + 1;
    }
    None
}

/// After an installation step, the post-installation step of the extension.
fn run_post_install(step: PostInstall, vscode_exe: &FsPath) -> (res: Result<PostInstallEffect, String>)
    ensures
        match res {
            Ok(e) => post_install_result(step) == Ok::<EffectView, Seq<char>>(e@),
            Err(m) => post_install_result(step) == Err::<EffectView, Seq<char>>(m@),
        },
{
    match step {
        PostInstall::Python => crate::extensions::descriptions::python(vscode_exe),
        PostInstall::VscodeLanguagePackLt => {
            crate::extensions::descriptions::vscode_language_pack_lt(vscode_exe)
        },
    }
}

impl ExtensionInstallerList {
    /// The installation of `extensions`, none of whose states are known yet.
    pub fn new(vscode_exe: &FsPath, extensions: &[Extension]) -> (res: ExtensionInstallerList)
        ensures
            res.vscode_exe@ == vscode_exe@,
            installer_views(res.installers@).len() == extensions@.len(),
            forall|i: int|
                0 <= i < extensions@.len() ==> #[trigger] installer_views(res.installers@)[i] == (
                InstallerView {
                    identifier: extensions@[i].identifier@,
                    post_install: extensions@[i].post_install,
                    state: StateView::Unknown,
                }),
            !res.initialized,
            res.abort_message is None,
            res@ == fresh_list(extensions@, vscode_exe@),
    {
        let mut installers: Vec<ExtensionInstaller> = Vec::new();
        let mut i: usize = 0;
        while i < extensions.len()
            invariant
                i <= extensions@.len(),
                installers@.len() == i,
                forall|j: int|
                    0 <= j < i ==> #[trigger] installers@[j]@ == (InstallerView {
                        identifier: extensions@[j].identifier@,
                        post_install: extensions@[j].post_install,
                        state: StateView::Unknown,
                    }),
            decreases extensions.len() - i,
        {
            installers.push(ExtensionInstaller::from(&extensions[i]));
            i = i + 1;
        }
        let res = ExtensionInstallerList {
            vscode_exe: vscode_exe.duplicate(),
            installers,
            initialized: false,
            abort_message: None,
        };
        assert(res@.installers =~= fresh_list(extensions@, vscode_exe@).installers);
        res
    }

    /// Runs `closure` on the installers, which it may change, and hands back
    /// what it returns.
    pub fn with<T, F: FnOnce(&mut Vec<ExtensionInstaller>) -> T>(&mut self, closure: F) -> (res: T)
        requires
            forall|v: &mut Vec<ExtensionInstaller>|
                *v == old(self).installers ==> #[trigger] closure.requires((v,)),
        ensures
            exists|v: &mut Vec<ExtensionInstaller>|
                *v == old(self).installers && *final(v) == final(self).installers
                    && #[trigger] closure.ensures((v,), res),
            final(self).vscode_exe == old(self).vscode_exe,
            final(self).initialized == old(self).initialized,
            final(self).abort_message == old(self).abort_message,
    {
        closure(&mut self.installers)
    }

    /// Appends the report line of every extension to `buf`.
    pub fn get_state(&self, buf: &mut String)
        ensures
            final(buf)@ == old(buf)@ + state_lines(installer_views(self.installers@)),
    {
        let ghost s = installer_views(self.installers@);
        let mut i: usize = 0;
        while i < self.installers.len()
            invariant
                i <= self.installers.len(),
                s == installer_views(self.installers@),
                buf@ == old(buf)@ + state_lines(s.take(i as int)),
            decreases self.installers.len() - i,
        {
            let line = self.installers[i].state_as_line();
            buf.append(line.as_str());
            assert(s.take(i + 1).drop_last() == s.take(i as int));
            i = i + 1;
        }
        assert(s.take(self.installers.len() as int) == s);
    }

    /// How many extensions are finished.
    pub fn get_current_progress(&self) -> (res: u32)
        ensures
            res == count_finished(installer_views(self.installers@)) as u32,
    {
        let ghost s = installer_views(self.installers@);
        let mut count: usize = 0;
        let mut i: usize = 0;
        while i < self.installers.len()
            invariant
                i <= self.installers.len(),
                s == installer_views(self.installers@),
                count == count_finished(s.take(i as int)),
                count <= i,
            decreases self.installers.len() - i,
        {
            assert(s.take(i + 1).drop_last() == s.take(i as int));
            if self.installers[i].is_finished() {
                count = count + 1;
            }
            i = i + 1;
        }
        assert(s.take(self.installers.len() as int) == s);
        count as u32
    }

    /// Whether every extension is finished.
    pub fn is_finished(&self) -> (res: bool)
        ensures
            res == all_finished(installer_views(self.installers@)),
    {
        first_pending(&self.installers).is_none()
    }

    /// What has to be done next: look up the installed extensions first,
    /// then install the first extension that is not finished.
    pub fn process_next_action(&self) -> (res: NextAction)
        ensures
            !self.initialized ==> (res matches NextAction::ListInstalled(c) && c@
                == vs_code_command(self.vscode_exe@, seq!["--list-extensions"@])),
            self.initialized ==> (all_finished(installer_views(self.installers@))
                <==> res is Nothing),
            self.initialized ==> forall|i: int|
                is_first_pending(installer_views(self.installers@), i) ==> (res matches NextAction::Install(c)
                    && c@ == vs_code_command(
                    self.vscode_exe@,
                    seq![""@, "--install-extension"@, installer_views(self.installers@)[i].identifier],
                )),
    {
        if !self.initialized {
            NextAction::ListInstalled(get_installed_extensions_command(&self.vscode_exe))
        } else {
            match first_pending(&self.installers) {
                Some(i) => NextAction::Install(
                    install_extension_command(&self.vscode_exe, self.installers[i].identifier.as_str()),
                ),
                None => NextAction::Nothing,
            }
        }
    }

    /// Gives the installation up, for the reason `message`.
    pub fn abort(&mut self, message: String)
        ensures
            final(self).abort_message matches Some(m) && m@ == message@,
            final(self).vscode_exe == old(self).vscode_exe,
            final(self).installers == old(self).installers,
            final(self).initialized == old(self).initialized,
    {
        self.abort_message = Some(message);
    }

    /// Why the installation was given up, if it was.
    pub fn get_abort_message(&self) -> (res: Option<String>)
        ensures
            res is Some <==> self.abort_message is Some,
            res matches Some(m) ==> (self.abort_message matches Some(a) && m@ == a@),
    {
        match &self.abort_message {
            Some(m) => Some(m.clone()),
            None => None,
        }
    }

    /// Takes in the installed extensions that VS Code reported: each
    /// extension is installed or still to be installed.  When VS Code could
    /// not report them, the installation is given up.
    pub fn initialize(&mut self, installed: Result<Vec<String>, GetExtError>)
        ensures
            final(self).vscode_exe == old(self).vscode_exe,
            installed matches Err(e) ==> (final(self).abort_message matches Some(m) && m@
                == "Nepavyko paleisti VS Code: "@ + e.text()),
            installed is Err ==> final(self).installers == old(self).installers
                && final(self).initialized == old(self).initialized,
            installed is Ok ==> final(self).initialized && final(self).abort_message
                == old(self).abort_message,
            installed matches Ok(list) ==> installer_views(final(self).installers@).len()
                == installer_views(old(self).installers@).len(),
            installed matches Ok(list) ==> forall|i: int|
                0 <= i < old(self).installers@.len() ==> #[trigger] installer_views(
                    final(self).installers@,
                )[i] == (InstallerView {
                    state: initial_state(
                        installer_views(old(self).installers@)[i].identifier,
                        string_views(list@),
                    ),
                    ..installer_views(old(self).installers@)[i]
                }),
            final(self)@ == lookup_step(old(self)@, lookup_view(installed)),
    {
        match installed {
            Err(error) => {
                let message = String::from_str("Nepavyko paleisti VS Code: ").concat(
                    error.message().as_str(),
                );
                self.abort(message);
                assert(self@.installers == old(self)@.installers);
            },
            Ok(list) => {
                let ghost old_views = installer_views(self.installers@);
                let mut installers: Vec<ExtensionInstaller> = Vec::new();
                let mut i: usize = 0;
                while i < self.installers.len()
                    invariant
                        i <= self.installers.len(),
                        old_views == installer_views(self.installers@),
                        installers@.len() == i,
                        forall|j: int|
                            0 <= j < i ==> #[trigger] installers@[j]@ == (InstallerView {
                                state: initial_state(old_views[j].identifier, string_views(list@)),
                                ..old_views[j]
                            }),
                    decreases self.installers.len() - i,
                {
                    let extension = &self.installers[i];
                    let state = if crate::extensions::contains(&list, &extension.identifier) {
                        ExtensionState::Installed
                    } else {
                        ExtensionState::ToBeInstalled
                    };
                    installers.push(extension.with_state(state));
                    i = i + 1;
                }
                self.installers = installers;
                self.initialized = true;
                assert(self@.installers =~= lookup_step(old(self)@, lookup_view(Ok(list))).installers);
            },
        }
    }

    /// Records the outcome of installing the first extension that is not
    /// finished, running its post-installation step when the installation
    /// succeeded, and hands out what that step asks of VS Code.  When every
    /// extension is finished, nothing changes.
    pub fn install_next_extension(&mut self, outcome: Result<(), InstallExtError>) -> (effect:
        PostInstallEffect)
        ensures
            effect@ == install_effect(installer_views(old(self).installers@), outcome),
            forall|i: int|
                is_first_pending(installer_views(old(self).installers@), i) ==> ((#[trigger] installer_views(
                    final(self).installers@,
                )[i]).state is Installed <==> outcome is Ok),
            final(self).vscode_exe == old(self).vscode_exe,
            final(self).initialized == old(self).initialized,
            final(self).abort_message == old(self).abort_message,
            all_finished(installer_views(old(self).installers@)) ==> final(self).installers
                == old(self).installers,
            forall|i: int|
                is_first_pending(installer_views(old(self).installers@), i) ==> installer_views(
                    final(self).installers@,
                ) == after_install(installer_views(old(self).installers@), i, outcome),
            final(self)@ == install_step(old(self)@, outcome),
    {
        let ghost old_views = installer_views(self.installers@);
        match first_pending(&self.installers) {
            None => PostInstallEffect::Nothing,
            Some(index) => {
                let extension = &self.installers[index];
                let mut effect = PostInstallEffect::Nothing;
                let state = match outcome {
                    Ok(()) => match extension.post_install {
                        Some(step) => match run_post_install(step, &self.vscode_exe) {
                            Ok(asked) => {
                                effect = asked;
                                ExtensionState::Installed
                            },
                            Err(message) => ExtensionState::InstallationError(message),
                        },
                        None => ExtensionState::Installed,
                    },
                    Err(InstallExtError::IoError(error)) => ExtensionState::InstallationError(
                        String::from_str("Klaida: ").concat(error.as_str()),
                    ),
                    Err(InstallExtError::ExecutionFailed { stdout, stderr }) => {
                        ExtensionState::InstallationError(
                            String::from_str("VS Code derinimo informacija:\r\n").concat(
                                stdout.as_str(),
                            ).concat("\r\n").concat(stderr.as_str()).concat("\r\n"),
                        )
                    },
                };
                let updated = extension.with_state(state);
                self.installers.set(index, updated);
                assert forall|i: int| is_first_pending(old_views, i) implies i == index by {
                    if i < index {
                        assert(old_views[i].state.finished());
                    } else if i > index {
                        assert(old_views[index as int].state.finished());
                    }
                }
                assert(installer_views(self.installers@) == old_views.update(
                    index as int,
                    installer_views(self.installers@)[index as int],
                ));
                effect
            },
        }
    }
}

/// The progress never exceeds the number of extensions.
pub proof fn law_progress_at_most_total(s: Seq<InstallerView>)
    ensures
        count_finished(s) <= s.len(),
    decreases s.len(),
{
    if s.len() > 0 {
        law_progress_at_most_total(s.drop_last());
    }
}

/// Every extension is finished exactly when the progress has reached the
/// number of extensions.
pub proof fn law_finished_iff_complete(s: Seq<InstallerView>)
    ensures
        all_finished(s) <==> count_finished(s) == s.len(),
    decreases s.len(),
{
    if s.len() > 0 {
        let front = s.drop_last();
        law_finished_iff_complete(front);
        law_progress_at_most_total(front);
        if all_finished(s) {
            assert forall|j: int| 0 <= j < front.len() implies #[trigger] front[j].state.finished() by {
                assert(front[j] == s[j]);
            }
            assert(s.last() == s[s.len() - 1]);
        }
        if all_finished(front) && s.last().state.finished() {
            assert forall|j: int| 0 <= j < s.len() implies #[trigger] s[j].state.finished() by {
                if j < s.len() - 1 {
                    assert(front[j] == s[j]);
                }
            }
        }
    }
}

proof fn lemma_count_update(s: Seq<InstallerView>, i: int, v: InstallerView)
    requires
        0 <= i < s.len(),
    ensures
        count_finished(s.update(i, v)) + (if s[i].state.finished() {
            1int
        } else {
            0int
        }) == count_finished(s) + (if v.state.finished() {
            1int
        } else {
            0int
        }),
    decreases s.len(),
{
    let t = s.update(i, v);
    if i == s.len() - 1 {
        assert(t.drop_last() == s.drop_last());
    } else {
        lemma_count_update(s.drop_last(), i, v);
        assert(t.drop_last() == s.drop_last().update(i, v));
    }
}

/// The installation's outcome decides the extension's state: it is
/// installed exactly when VS Code installed it (every post-installation
/// step succeeds), and a failed installation leaves an installation error
/// that carries what went wrong.
pub proof fn law_outcome_decides_state(
    s: Seq<InstallerView>,
    i: int,
    outcome: Result<(), InstallExtError>,
)
    requires
        0 <= i < s.len(),
    ensures
        after_install(s, i, outcome)[i].state is Installed <==> outcome is Ok,
        outcome is Err ==> after_install(s, i, outcome)[i].state is InstallationError,
        outcome matches Err(InstallExtError::IoError(e)) ==> after_install(s, i, outcome)[i].state
            == StateView::InstallationError("Klaida: "@ + e@),
        after_install(s, i, outcome)[i].identifier == s[i].identifier,
        after_install(s, i, outcome)[i].post_install == s[i].post_install,
{
    if let Some(step) = s[i].post_install {
        match step {
            PostInstall::Python => {},
            PostInstall::VscodeLanguagePackLt => {},
        }
    }
}

/// An installation step finishes the first pending extension and no other
/// changes: the progress grows by exactly one, and every extension that was
/// finished keeps its state.  So after the lookup, the installer is done
/// after as many steps as there were pending extensions.
pub proof fn law_install_step_advances(
    s: Seq<InstallerView>,
    i: int,
    outcome: Result<(), InstallExtError>,
)
    requires
        is_first_pending(s, i),
    ensures
        count_finished(after_install(s, i, outcome)) == count_finished(s) + 1,
        after_install(s, i, outcome)[i].state.finished(),
        forall|j: int|
            0 <= j < s.len() && #[trigger] s[j].state.finished() ==> after_install(s, i, outcome)[j]
                == s[j],
{
    lemma_count_update(s, i, InstallerView { state: installed_state(outcome, s[i].post_install), ..s[i] });
}

/// After the lookup of the installed extensions, every extension is finished
/// exactly when the quick check finds all of them installed: then the
/// installer has nothing to install.
pub proof fn law_lookup_agrees_with_quick_check(
    extensions: Seq<Extension>,
    installed: Seq<Seq<char>>,
    after_lookup: Seq<InstallerView>,
)
    requires
        after_lookup.len() == extensions.len(),
        forall|i: int|
            0 <= i < extensions.len() ==> #[trigger] after_lookup[i].state == initial_state(
                extensions[i].identifier@,
                installed,
            ),
    ensures
        crate::extensions::all_installed(extensions, installed) <==> all_finished(after_lookup),
{
    if crate::extensions::all_installed(extensions, installed) {
        assert forall|i: int| 0 <= i < after_lookup.len() implies #[trigger] after_lookup[i].state.finished() by {
            assert(installed.contains(extensions[i].identifier@));
        }
    }
    if all_finished(after_lookup) {
        assert forall|i: int| 0 <= i < extensions.len() implies installed.contains(
            #[trigger] extensions[i].identifier@,
        ) by {
            assert(after_lookup[i].state.finished());
        }
    }
}

} // verus!
