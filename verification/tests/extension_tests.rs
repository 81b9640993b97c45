use smauglys::code::{GetExtError, InstallExtError};
use smauglys::extensions::descriptions::{extensions, python, vscode_language_pack_lt};
use smauglys::extensions::extension::{
    Extension, ExtensionInstaller, ExtensionInstallerList, ExtensionState, NextAction, PostInstall,
    PostInstallEffect,
};
use smauglys::extensions::gui::{render_state, worker_message, worker_step, Message, Received, RenderAction};
use smauglys::extensions::{ensure_installed, quick_check};
use smauglys::path::FsPath;
use smauglys::process::Arg;

fn exe() -> FsPath {
    FsPath { root: "C:\\".to_string(), names: vec!["VSCodium".to_string(), "code_original.exe".to_string()] }
}

fn strings(v: &[&str]) -> Vec<String> {
    v.iter().map(|s| s.to_string()).collect()
}

fn progress(list: &ExtensionInstallerList) -> u32 {
    list.get_current_progress()
}

fn last_text_arg(args: &[Arg]) -> String {
    match args.last() {
        Some(Arg::Text(t)) => t.clone(),
        _ => panic!("expected a text argument"),
    }
}

#[test]
fn the_three_extensions() {
    let e = extensions();
    let ids: Vec<&str> = e.iter().map(|x| x.identifier.as_str()).collect();
    assert_eq!(ids, vec!["ms-python.python", "vakaras.vscode-language-pack-lt", "hediet.debug-visualizer"]);
    assert!(matches!(e[0].post_install, Some(PostInstall::Python)));
    assert!(matches!(e[1].post_install, Some(PostInstall::VscodeLanguagePackLt)));
    assert!(e[2].post_install.is_none());
    assert!(matches!(python(&exe()), Ok(PostInstallEffect::Nothing)));
    assert!(matches!(vscode_language_pack_lt(&exe()), Ok(PostInstallEffect::SetLocale(l)) if l == "lt"));
}

#[test]
fn state_lines_read_as_expected() {
    let mut e = ExtensionInstaller::from(&Extension { identifier: "x.y".to_string(), post_install: None });
    assert_eq!(e.state_as_line(), "Papildinys x.y: tikrinama\r\n");
    assert!(!e.is_finished());
    e.state = ExtensionState::ToBeInstalled;
    assert_eq!(e.state_as_line(), "Papildinys x.y: diegiama\r\n");
    assert!(!e.is_finished());
    e.state = ExtensionState::Installed;
    assert_eq!(e.state_as_line(), "Papildinys x.y: sėkmingai įdiegta\r\n");
    assert!(e.is_finished());
    e.state = ExtensionState::InstallationError("oops".to_string());
    assert_eq!(e.state_as_line(), "Papildinys x.y: diegimas nepavyko\r\n  oops\r\n");
    assert!(e.is_finished());
}

#[test]
fn a_run_of_the_installer() {
    let exts = extensions();
    let mut list = ExtensionInstallerList::new(&exe(), &exts);
    assert_eq!(progress(&list), 0);
    assert!(!list.is_finished());
    assert!(matches!(list.process_next_action(), NextAction::ListInstalled(_)));
    list.initialize(Ok(strings(&["hediet.debug-visualizer", "other.ext"])));
    assert!(list.initialized);
    assert_eq!(progress(&list), 1);
    match list.process_next_action() {
        NextAction::Install(c) => assert_eq!(last_text_arg(&c.args), "ms-python.python"),
        _ => panic!("expected an installation"),
    }
    list.install_next_extension(Ok(()));
    assert_eq!(progress(&list), 2);
    match list.process_next_action() {
        NextAction::Install(c) => assert_eq!(last_text_arg(&c.args), "vakaras.vscode-language-pack-lt"),
        _ => panic!("expected an installation"),
    }
    list.install_next_extension(Err(InstallExtError::ExecutionFailed {
        stdout: "o".to_string(),
        stderr: "e".to_string(),
    }));
    assert_eq!(progress(&list), 3);
    assert!(list.is_finished());
    assert!(matches!(list.process_next_action(), NextAction::Nothing));
    let mut buf = String::from("> ");
    list.get_state(&mut buf);
    assert_eq!(
        buf,
        "> Papildinys ms-python.python: sėkmingai įdiegta\r\n\
         Papildinys vakaras.vscode-language-pack-lt: diegimas nepavyko\r\n  VS Code derinimo informacija:\r\no\r\ne\r\n\r\n\
         Papildinys hediet.debug-visualizer: sėkmingai įdiegta\r\n"
    );
    // Nothing is left: a further step changes nothing.
    list.install_next_extension(Ok(()));
    assert_eq!(progress(&list), 3);
}

#[test]
fn io_error_of_an_installation() {
    let mut list = ExtensionInstallerList::new(&exe(), &extensions()[2..]);
    list.initialize(Ok(vec![]));
    list.install_next_extension(Err(InstallExtError::IoError("no such file".to_string())));
    assert_eq!(list.installers[0].state_as_line(), "Papildinys hediet.debug-visualizer: diegimas nepavyko\r\n  Klaida: no such file\r\n");
}

#[test]
fn failed_lookup_aborts() {
    let mut list = ExtensionInstallerList::new(&exe(), &extensions());
    list.initialize(Err(GetExtError::IoError("cannot start".to_string())));
    assert!(!list.initialized);
    assert_eq!(list.get_abort_message(), Some("Nepavyko paleisti VS Code: cannot start".to_string()));
    match worker_message(&list, 3) {
        Message::Abort(m) => assert_eq!(m, "Nepavyko paleisti VS Code: cannot start"),
        _ => panic!("expected an abort"),
    }
}

#[test]
fn abort_keeps_the_rest() {
    let mut list = ExtensionInstallerList::new(&exe(), &extensions());
    list.abort("stop".to_string());
    assert_eq!(list.get_abort_message(), Some("stop".to_string()));
    assert_eq!(list.installers.len(), 3);
    assert!(!list.initialized);
}

#[test]
fn worker_reports_progress() {
    let mut list = ExtensionInstallerList::new(&exe(), &extensions()[..1]);
    match worker_message(&list, 1) {
        Message::UiUpdate { progress, progress_total, details } => {
            assert_eq!(progress, 0);
            assert_eq!(progress_total, 1);
            assert_eq!(details, "Diegiami papildiniai:\r\nPapildinys ms-python.python: tikrinama\r\n");
        }
        _ => panic!("expected an update"),
    }
    list.initialize(Ok(strings(&["ms-python.python"])));
    match worker_message(&list, 1) {
        Message::UiUpdate { progress, .. } => assert_eq!(progress, 1),
        _ => panic!("expected an update"),
    }
}

#[test]
fn with_hands_back_the_closure_result_and_keeps_its_changes() {
    let mut list = ExtensionInstallerList::new(&exe(), &extensions());
    assert_eq!(list.with(|installers| installers.len()), 3);
    let finished = list.with(|installers| {
        installers[1].state = ExtensionState::Installed;
        installers.iter().filter(|e| e.is_finished()).count()
    });
    assert_eq!(finished, 1);
    assert_eq!(progress(&list), 1);
    assert!(list.installers[1].is_finished());
}

#[test]
fn worker_steps_stop_when_done_or_given_up() {
    let mut list = ExtensionInstallerList::new(&exe(), &extensions()[..1]);
    let (message, go) = worker_step(&list, 1);
    assert!(go);
    assert!(matches!(message, Message::UiUpdate { progress: 0, .. }));
    list.initialize(Ok(vec![]));
    assert!(worker_step(&list, 1).1);
    list.install_next_extension(Ok(()));
    let (message, go) = worker_step(&list, 1);
    assert!(!go);
    assert!(matches!(message, Message::UiUpdate { progress: 1, progress_total: 1, .. }));
    let mut failed = ExtensionInstallerList::new(&exe(), &extensions());
    failed.initialize(Err(GetExtError::IoError("x".to_string())));
    let (message, go) = worker_step(&failed, 3);
    assert!(!go);
    assert!(matches!(message, Message::Abort(_)));
}

#[test]
fn window_renders_reports() {
    assert!(matches!(
        render_state(Received::Report(Message::UiUpdate { progress: 1, progress_total: 3, details: "d".to_string() })),
        RenderAction::Show { progress: 1, progress_total: 3, details } if details == "d"
    ));
    assert!(matches!(render_state(Received::Report(Message::Finished)), RenderAction::Stop));
    assert!(matches!(render_state(Received::Report(Message::Abort("a".to_string()))), RenderAction::CriticalError(m) if m == "a"));
    assert!(matches!(render_state(Received::Disconnected), RenderAction::Stop));
    assert!(matches!(render_state(Received::Empty), RenderAction::Wait));
}

#[test]
fn a_run_with_failing_installations_still_ends() {
    let exts = extensions();
    let mut list = ExtensionInstallerList::new(&exe(), &exts);
    let mut steps = 0;
    while !list.is_finished() {
        match list.process_next_action() {
            NextAction::ListInstalled(_) => list.initialize(Ok(vec![])),
            NextAction::Install(_) => {
                list.install_next_extension(Err(InstallExtError::IoError("no".to_string())));
            }
            NextAction::Nothing => {}
        }
        steps += 1;
        for (i, e) in list.installers.iter().enumerate() {
            assert_eq!(e.identifier, exts[i].identifier);
        }
    }
    assert_eq!(steps, 1 + exts.len());
    assert!(list.get_abort_message().is_none());
}

#[test]
fn quick_check_and_ensure_installed() {
    let exts = extensions();
    let all = strings(&["hediet.debug-visualizer", "ms-python.python", "vakaras.vscode-language-pack-lt"]);
    assert!(matches!(quick_check(&exts, Ok(all.clone())), Ok(true)));
    assert!(!ensure_installed(&exts, Ok(all.clone())));
    let some = strings(&["ms-python.python"]);
    assert!(matches!(quick_check(&exts, Ok(some.clone())), Ok(false)));
    assert!(ensure_installed(&exts, Ok(some)));
    assert!(matches!(quick_check(&exts, Err(GetExtError::IoError("x".to_string()))), Err(GetExtError::IoError(_))));
    assert!(ensure_installed(&exts, Err(GetExtError::FromUtf8Error("x".to_string()))));
    assert!(matches!(quick_check(&[], Ok(vec![])), Ok(true)));
}

#[test]
fn lookup_agrees_with_quick_check() {
    let exts = extensions();
    for installed in [
        strings(&["hediet.debug-visualizer", "ms-python.python", "vakaras.vscode-language-pack-lt"]),
        strings(&["ms-python.python", "x"]),
        vec![],
    ] {
        let mut list = ExtensionInstallerList::new(&exe(), &exts);
        list.initialize(Ok(installed.clone()));
        let quick = matches!(quick_check(&exts, Ok(installed)), Ok(true));
        assert_eq!(quick, list.is_finished());
    }
}

#[test]
fn finished_iff_progress_complete() {
    let mut list = ExtensionInstallerList::new(&exe(), &extensions());
    list.initialize(Ok(strings(&["ms-python.python"])));
    loop {
        let done = list.is_finished();
        assert_eq!(done, progress(&list) as usize == list.installers.len());
        if done {
            break;
        }
        let before = progress(&list);
        list.install_next_extension(Ok(()));
        assert_eq!(progress(&list), before + 1);
    }
}

#[test]
fn installation_hands_out_post_install_effects() {
    let mut list = ExtensionInstallerList::new(&exe(), &extensions());
    list.initialize(Ok(vec![]));
    assert!(matches!(list.install_next_extension(Ok(())), PostInstallEffect::Nothing));
    assert!(matches!(list.install_next_extension(Ok(())), PostInstallEffect::SetLocale(l) if l == "lt"));
    assert!(matches!(list.install_next_extension(Ok(())), PostInstallEffect::Nothing));
    assert!(matches!(list.install_next_extension(Ok(())), PostInstallEffect::Nothing));
    let mut failed = ExtensionInstallerList::new(&exe(), &extensions()[1..2]);
    failed.initialize(Ok(vec![]));
    let effect = failed.install_next_extension(Err(InstallExtError::IoError("x".to_string())));
    assert!(matches!(effect, PostInstallEffect::Nothing));
}

/// Runs the worker's loop as the window's thread does, with the given
/// lookup result and installation outcome, and collects its messages.
fn worker_messages(exts: &[Extension], lookup: Result<Vec<String>, GetExtError>, ok: bool) -> Vec<Message> {
    let mut list = ExtensionInstallerList::new(&exe(), exts);
    let mut messages = Vec::new();
    let mut working = !list.is_finished();
    let mut lookup = Some(lookup);
    while working {
        match list.process_next_action() {
            NextAction::ListInstalled(_) => list.initialize(lookup.take().unwrap_or(Ok(vec![]))),
            NextAction::Install(_) => {
                let outcome = if ok { Ok(()) } else { Err(InstallExtError::IoError("no".to_string())) };
                list.install_next_extension(outcome);
            }
            NextAction::Nothing => {}
        }
        let (message, go) = worker_step(&list, exts.len());
        messages.push(message);
        working = go;
    }
    messages.push(Message::Finished);
    messages
}

#[test]
fn worker_run_messages() {
    let exts = extensions();
    let ms = worker_messages(&exts, Ok(vec![]), true);
    assert_eq!(ms.len(), exts.len() + 2);
    assert!(matches!(ms.last(), Some(Message::Finished)));
    for m in &ms[..ms.len() - 1] {
        match m {
            Message::UiUpdate { progress, progress_total, .. } => {
                assert_eq!(*progress_total, 3);
                assert!(progress <= progress_total);
            }
            _ => panic!("expected an update"),
        }
    }
    let ms = worker_messages(&exts, Err(GetExtError::IoError("x".to_string())), true);
    assert_eq!(ms.len(), 2);
    assert!(matches!(&ms[0], Message::Abort(m) if m == "Nepavyko paleisti VS Code: x"));
    // The lookup, then the two pending extensions, then the end.
    let ms = worker_messages(&exts, Ok(strings(&["ms-python.python"])), false);
    assert_eq!(ms.len(), 4);
    let ms = worker_messages(&[], Ok(vec![]), true);
    assert!(matches!(ms.as_slice(), [Message::Finished]));
}
