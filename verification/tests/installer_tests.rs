use smauglys::extension_installer::{handle_installation_result, ExtensionInstaller, Flags, Message, UpdateAction};
use smauglys::installer::command::{run_command, State as CommandState};
use smauglys::installer::error::Error;
use smauglys::installer::gui::{install_button_enabled, update_progress_bar, Message as InstallerMessage, Received, ViewAction};
use smauglys::installer::installation::{abort_report, report, Stage, State};
use smauglys::installer::python::{find_python, install_packages, install_python, packages_zip};
use smauglys::installer::vscode::{install_vscode, set_extensions_path};
use smauglys::installer::wrapper::ensure_wrapper;
use smauglys::path::FsPath;
use smauglys::process::{Arg, ProcessOutput};

fn path(root: &str, names: &[&str]) -> FsPath {
    FsPath { root: root.to_string(), names: names.iter().map(|n| n.to_string()).collect() }
}

fn render(args: &[Arg]) -> Vec<String> {
    args.iter()
        .map(|a| match a {
            Arg::Text(t) => t.clone(),
            Arg::Path(p) => format!("{}{}", p.root, p.names.join("\\")),
        })
        .collect()
}

#[test]
fn iced_window_installs_first_extension_and_does_not_advance() {
    let flags = Flags { extensions_to_install: vec!["a.b".to_string()], vscode_exe: path("/", &["code"]) };
    let (mut window, command) = ExtensionInstaller::new(flags);
    assert_eq!(window.currently_installing, 0);
    assert_eq!(command.program.names, vec!["ls".to_string()]);
    assert!(command.args.is_empty());
    assert_eq!(window.title(), "Smauglys – diegiami VS Code papildiniai");
    for _ in 0..3 {
        let message = handle_installation_result(Err("x".to_string()));
        assert!(matches!(message, Message::ExtensionInstalled));
        assert!(matches!(window.update(message), UpdateAction::Perform(_)));
        assert_eq!(window.currently_installing, 0);
    }
}

#[test]
fn iced_window_launches_when_past_the_end() {
    let mut window = ExtensionInstaller {
        extensions_to_install: vec!["a.b".to_string()],
        currently_installing: 1,
        vscode_exe: path("/", &["code"]),
    };
    assert!(matches!(window.update(Message::ExtensionInstalled), UpdateAction::LaunchVsCode));
}

#[test]
fn run_command_outcomes() {
    let cmd = path("C:\\", &["setup.exe"]);
    assert!(run_command(&cmd, Ok(ProcessOutput { success: true, stdout: vec![], stderr: vec![] })).is_ok());
    match run_command(&cmd, Ok(ProcessOutput { success: false, stdout: b"a".to_vec(), stderr: b"\xc3".to_vec() })) {
        Err(Error::CommandFailed { command, stdout, stderr }) => {
            assert_eq!(command.names, vec!["setup.exe".to_string()]);
            assert_eq!(stdout, "a");
            assert_eq!(stderr, "\u{FFFD}");
        }
        _ => panic!("expected a failed command"),
    }
    assert!(matches!(run_command(&cmd, Err("gone".to_string())), Err(Error::IoError(m)) if m == "gone"));
}

#[test]
fn installer_commands() {
    let tmp = path("C:\\", &["Temp", "x"]);
    assert_eq!(render(&install_python(&path("", &["py.exe"])).args), vec!["/passive", "InstallAllUsers=1", "PrependPath=1"]);
    assert_eq!(render(&install_vscode(&path("", &["vs.exe"])).args), vec!["/SILENT", "/mergetasks=!runcode"]);
    let pip = install_packages(&find_python(&path("C:\\", &["Program Files"])), &tmp);
    assert_eq!(pip.program.names, vec!["Program Files", "Python38", "python.exe"]);
    assert_eq!(
        render(&pip.args),
        vec![
            "-m", "pip", "install", "--no-index", "--find-links",
            "C:\\Temp\\x\\python_packages", "-r", "C:\\Temp\\x\\python_packages\\requirements.txt",
        ]
    );
    assert_eq!(packages_zip(&tmp).names, vec!["Temp", "x", "python_packages.zip"]);
    let setx = set_extensions_path(&path("C:\\", &["Program Files"]));
    assert_eq!(setx.program.names, vec!["setx"]);
    assert_eq!(render(&setx.args), vec!["/M", "VSCODE_EXTENSIONS", "C:\\Program Files\\VS Code Extensions"]);
}

#[test]
fn wrapper_and_state_paths() {
    let w = ensure_wrapper(&path("C:\\", &["Program Files"]));
    assert_eq!(w.vs_code_exe.names, vec!["Program Files", "VSCodium", "code.exe"]);
    assert_eq!(w.vs_code_original.names, vec!["Program Files", "VSCodium", "code_original.exe"]);
    let s = State::new(&path("/", &["tmp", "e"]));
    assert_eq!(s.python_installer.names, vec!["tmp", "e", "PythonInstaller.exe"]);
    assert_eq!(s.vscode_installer.names, vec!["tmp", "e", "VSCodeSetup.exe"]);
    assert_eq!(s.root_dir.names, vec!["tmp", "e"]);
    let c = CommandState::new(&path("/", &["tmp"]));
    assert_eq!(c.wrapper_bin.names, vec!["tmp", "wrapper.exe"]);
}

#[test]
fn window_decisions() {
    assert!(install_button_enabled(true, true));
    assert!(!install_button_enabled(true, false));
    assert!(!install_button_enabled(false, true));
    assert!(!install_button_enabled(false, false));
    assert!(matches!(update_progress_bar(Received::Empty), ViewAction::Wait));
    assert!(matches!(update_progress_bar(Received::Disconnected), ViewAction::ShowFinal));
    assert!(matches!(update_progress_bar(Received::Report(InstallerMessage::Finished)), ViewAction::ShowFinal));
    assert!(matches!(update_progress_bar(Received::NoChannel), ViewAction::CriticalError(m) if m == "Vidinė klaida"));
    assert!(matches!(
        update_progress_bar(Received::Report(InstallerMessage::ProgressUpdate { progress: 2, details: "d".to_string() })),
        ViewAction::ShowProgress { progress: 2, details } if details == "d"
    ));
    assert!(matches!(update_progress_bar(Received::Report(InstallerMessage::Abort("e".to_string()))), ViewAction::CriticalError(m) if m == "e"));
}

#[test]
fn installation_reports() {
    assert!(matches!(report(Stage::PythonInstalled), InstallerMessage::ProgressUpdate { progress: 1, details } if details == "Python įdiegtas"));
    assert!(matches!(report(Stage::VsCodeInstalled), InstallerMessage::ProgressUpdate { progress: 1, details } if details == "VS Code įdiegtas"));
    assert!(matches!(report(Stage::Done), InstallerMessage::Finished));
    assert!(matches!(abort_report("x"), InstallerMessage::Abort(m) if m == "Įvyko klaida: x"));
}

#[test]
fn installer_error_messages() {
    let failed = Error::CommandFailed { command: path("", &["x"]), stdout: String::new(), stderr: String::new() };
    assert_eq!(failed.message("\"x\""), "Nepavyko įvykdyti komandos: \"x\"");
    assert_eq!(Error::IoError("io".to_string()).message(""), "io");
    assert_eq!(Error::SendError("send".to_string()).message(""), "send");
}
