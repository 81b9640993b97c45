use smauglys::code::{
    create_vs_code_command, get_installed_extensions, get_installed_extensions_command,
    get_vscode_original_exe, install_extension, install_extension_command, start_vs_code,
    set_locale, GetExtError, InstallExtError,
};
use smauglys::path::FsPath;
use smauglys::process::{Arg, ProcessOutput};

fn path(root: &str, names: &[&str]) -> FsPath {
    FsPath { root: root.to_string(), names: names.iter().map(|n| n.to_string()).collect() }
}

fn names(p: &FsPath) -> Vec<&str> {
    p.names.iter().map(|s| s.as_str()).collect()
}

fn text_args(args: &[Arg]) -> Vec<String> {
    args.iter()
        .map(|a| match a {
            Arg::Text(t) => t.clone(),
            Arg::Path(p) => format!("<{}{}>", p.root, p.names.join("/")),
        })
        .collect()
}

#[test]
fn original_exe_sits_beside_the_wrapper() {
    let exe = path("C:\\", &["Program Files", "VSCodium", "code.exe"]);
    let original = get_vscode_original_exe(&exe);
    assert_eq!(original.root, "C:\\");
    assert_eq!(names(&original), vec!["Program Files", "VSCodium", "code_original.exe"]);
}

#[test]
fn original_exe_of_a_path_without_file_name() {
    let exe = path("/", &["opt", ".."]);
    let original = get_vscode_original_exe(&exe);
    assert_eq!(names(&original), vec!["opt", "..", "code_original.exe"]);
    let root_only = get_vscode_original_exe(&path("/", &[]));
    assert_eq!(names(&root_only), vec!["code_original.exe"]);
}

#[test]
fn vs_code_command_runs_cli_js_as_node() {
    let exe = path("C:\\", &["VSCodium", "code_original.exe"]);
    let c = create_vs_code_command(&exe, &vec!["--version".to_string()]);
    assert_eq!(names(&c.program), vec!["VSCodium", "code_original.exe"]);
    assert_eq!(c.env, vec![("ELECTRON_RUN_AS_NODE".to_string(), "1".to_string())]);
    match &c.args[0] {
        Arg::Path(p) => {
            assert_eq!(p.root, "C:\\");
            assert_eq!(names(p), vec!["VSCodium", "resources", "app", "out", "cli.js"]);
        }
        Arg::Text(_) => panic!("the first argument is the script"),
    }
    assert_eq!(text_args(&c.args[1..]), vec!["--version"]);
}

#[test]
fn list_and_install_commands() {
    let exe = path("/", &["code"]);
    let list = get_installed_extensions_command(&exe);
    assert_eq!(text_args(&list.args[1..]), vec!["--list-extensions"]);
    let install = install_extension_command(&exe, "ms-python.python");
    assert_eq!(text_args(&install.args[1..]), vec!["", "--install-extension", "ms-python.python"]);
}

#[test]
fn start_drops_the_program_name() {
    let exe = path("/", &["code"]);
    let c = start_vs_code(&exe, &vec!["wrapper.exe".to_string(), "a.py".to_string(), "-n".to_string()]);
    assert!(c.env.is_empty());
    assert_eq!(text_args(&c.args), vec!["a.py", "-n"]);
    assert!(start_vs_code(&exe, &vec![]).args.is_empty());
    assert!(start_vs_code(&exe, &vec!["only".to_string()]).args.is_empty());
}

#[test]
fn installed_extensions_from_output() {
    let out = ProcessOutput {
        success: true,
        stdout: b"ms-python.python\nhediet.debug-visualizer\n".to_vec(),
        stderr: vec![],
    };
    let list = get_installed_extensions(Ok(out)).ok().unwrap();
    assert_eq!(list, vec!["ms-python.python", "hediet.debug-visualizer"]);
}

#[test]
fn installed_extensions_ignore_exit_status_and_decode_utf8() {
    let out = ProcessOutput { success: false, stdout: "ąžuolas x".as_bytes().to_vec(), stderr: vec![] };
    assert_eq!(get_installed_extensions(Ok(out)).ok().unwrap(), vec!["ąžuolas", "x"]);
}

#[test]
fn installed_extensions_errors() {
    match get_installed_extensions(Err("not found".to_string())) {
        Err(GetExtError::IoError(m)) => assert_eq!(m, "not found"),
        _ => panic!("expected an I/O error"),
    }
    let out = ProcessOutput { success: true, stdout: vec![b'a', 0xff, b'b'], stderr: vec![] };
    match get_installed_extensions(Ok(out)) {
        Err(e @ GetExtError::FromUtf8Error(_)) => {
            let expected = String::from_utf8(vec![b'a', 0xff, b'b']).unwrap_err().to_string();
            assert_eq!(e.message(), expected);
        }
        _ => panic!("expected a decoding error"),
    }
}

#[test]
fn install_outcomes() {
    let ok = ProcessOutput { success: true, stdout: b"done".to_vec(), stderr: vec![] };
    assert!(install_extension(Ok(ok)).is_ok());
    let failed = ProcessOutput { success: false, stdout: b"out\xff".to_vec(), stderr: b"err".to_vec() };
    match install_extension(Ok(failed)) {
        Err(InstallExtError::ExecutionFailed { stdout, stderr }) => {
            assert_eq!(stdout, "out\u{FFFD}");
            assert_eq!(stderr, "err");
        }
        _ => panic!("expected a failed execution"),
    }
    match install_extension(Err("denied".to_string())) {
        Err(InstallExtError::IoError(m)) => assert_eq!(m, "denied"),
        _ => panic!("expected an I/O error"),
    }
}

#[test]
fn locale_in_a_new_argv_json() {
    assert_eq!(set_locale(None, "lt"), Some("{\n\t\"locale\": \"lt\"\n}\n".to_string()));
}

#[test]
fn locale_goes_first_in_an_existing_argv_json() {
    let existing = "// comment\n{\n\t\"enable-crash-reporter\": true\n}\n".to_string();
    assert_eq!(
        set_locale(Some(existing), "lt"),
        Some("// comment\n{\n\t\"locale\": \"lt\",\n\t\"enable-crash-reporter\": true\n}\n".to_string())
    );
    assert_eq!(set_locale(Some("{}".to_string()), "lt"), Some("{\n\t\"locale\": \"lt\"}".to_string()));
}

#[test]
fn an_existing_locale_is_kept() {
    assert_eq!(set_locale(Some("{\"locale\": \"en\"}".to_string()), "lt"), None);
}

#[test]
fn argv_json_without_an_object_is_replaced() {
    assert_eq!(set_locale(Some("garbage".to_string()), "lt"), Some("{\n\t\"locale\": \"lt\"\n}\n".to_string()));
}
