//! What the installation worker reports to the window after each step.

use crate::extensions::extension::{
    all_finished, count_finished, installer_views, state_lines, ExtensionInstallerList, ListView,
};
use vstd::prelude::*;

verus! {

/// A report from the installation worker to the window.
pub enum Message {
    /// How far the installation is, and the report lines of all extensions.
    UiUpdate { progress: u32, progress_total: u32, details: String },
    /// Every extension is finished.
    Finished,
    /// The installation was given up, for this reason.
    Abort(String),
}

/// The report after a step of the worker: the reason to give up, when the
/// installation was given up; otherwise the progress, out of
/// `extension_count`, and the report lines under a heading.
pub fn worker_message(installer: &ExtensionInstallerList, extension_count: usize) -> (res: Message)
    ensures
        installer.abort_message matches Some(a) ==> (res matches Message::Abort(m) && m@ == a@),
        installer.abort_message is None ==> (res matches Message::UiUpdate {
            progress,
            progress_total,
            details,
        } && progress == count_finished(installer_views(installer.installers@)) as u32
            && progress_total == extension_count as u32 && details@ == "Diegiami papildiniai:\r\n"@
            + state_lines(installer_views(installer.installers@))),
{
    match installer.get_abort_message() {
        Some(abort_message) => Message::Abort(abort_message),
        None => {
            let mut buf = String::from_str("Diegiami papildiniai:\r\n");
            installer.get_state(&mut buf);
            Message::UiUpdate {
                progress: installer.get_current_progress(),
                progress_total: extension_count as u32,
                details: buf,
            }
        },
    }
}

/// The mathematical value of a report.
pub enum MessageView {
    UiUpdate { progress: u32, progress_total: u32, details: Seq<char> },
    Finished,
    Abort(Seq<char>),
}

impl View for Message {
    type V = MessageView;

    open spec fn view(&self) -> MessageView {
        match self {
            Message::UiUpdate { progress, progress_total, details } => MessageView::UiUpdate {
                progress: *progress,
                progress_total: *progress_total,
                details: details@,
            },
            Message::Finished => MessageView::Finished,
            Message::Abort(m) => MessageView::Abort(m@),
        }
    }
}

/// The report on the list `l` out of `extension_count` extensions: the
/// reason to give up, when the installation was given up; otherwise the
/// progress and the report lines under a heading.
pub open spec fn report(l: ListView, extension_count: nat) -> MessageView {
    match l.abort_message {
        Some(a) => MessageView::Abort(a),
        None => MessageView::UiUpdate {
            progress: count_finished(l.installers) as u32,
            progress_total: extension_count as u32,
            details: "Diegiami papildiniai:\r\n"@ + state_lines(l.installers),
        },
    }
}

/// Whether the worker goes on after a step that left the list `l`: it
/// stops once the installation was given up or every extension is finished.
pub open spec fn keeps_working(l: ListView) -> bool {
    l.abort_message is None && !all_finished(l.installers)
}

/// The report after a step of the worker, and whether the worker goes on:
/// it stops once the installation was given up or every extension is
/// finished.
pub fn worker_step(installer: &ExtensionInstallerList, extension_count: usize) -> (res: (
    Message,
    bool,
))
    ensures
        installer.abort_message matches Some(a) ==> (res.0 matches Message::Abort(m) && m@ == a@),
        installer.abort_message is None ==> (res.0 matches Message::UiUpdate {
            progress,
            progress_total,
            details,
        } && progress == count_finished(installer_views(installer.installers@)) as u32
            && progress_total == extension_count as u32 && details@ == "Diegiami papildiniai:\r\n"@
            + state_lines(installer_views(installer.installers@))),
        res.1 == (installer.abort_message is None && !all_finished(
            installer_views(installer.installers@),
        )),
        res.0@ == report(installer@, extension_count as nat),
        res.1 == keeps_working(installer@),
{
    let message = worker_message(installer, extension_count);
    let continues = match message {
        Message::Abort(_) => false,
        _ => !installer.is_finished(),
    };
    (message, continues)
}

/// What the window found when it looked for a report.
pub enum Received {
    /// A report.
    Report(Message),
    /// No report is waiting.
    Empty,
    /// The worker's end of the channel is gone.
    Disconnected,
}

/// What the window does about what it found.
pub enum RenderAction {
    /// Set the progress bar's range to `0..progress_total` and its position
    /// to `progress`, and show `details`.
    Show { progress: u32, progress_total: u32, details: String },
    /// Close the window.
    Stop,
    /// Show this message as a critical error, then close the window.
    CriticalError(String),
    /// Nothing.
    Wait,
}

/// The window's reaction to what it found on the channel: an update is
/// shown, the end of the installation or of the channel closes the window,
/// a given-up installation is shown as a critical error, and nothing waiting
/// changes nothing.
pub fn render_state(received: Received) -> (res: RenderAction)
    ensures
        received matches Received::Report(Message::UiUpdate { progress, progress_total, details })
            ==> (res matches RenderAction::Show { progress: p, progress_total: t, details: d }
            && p == progress && t == progress_total && d == details),
        received matches Received::Report(Message::Finished) ==> res is Stop,
        received matches Received::Report(Message::Abort(m)) ==> (res matches RenderAction::CriticalError(e) && e == m),
        received is Disconnected ==> res is Stop,
        received is Empty ==> res is Wait,
{
    match received {
        Received::Report(Message::UiUpdate { progress, progress_total, details }) => {
            RenderAction::Show { progress, progress_total, details }
        },
        Received::Report(Message::Finished) => RenderAction::Stop,
        Received::Report(Message::Abort(abort_message)) => RenderAction::CriticalError(abort_message),
        Received::Disconnected => RenderAction::Stop,
        Received::Empty => RenderAction::Wait,
    }
}

} // verus!
