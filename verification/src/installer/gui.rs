//! The decisions of the installer window.

use vstd::prelude::*;

verus! {

/// A report from the installation to the window.
pub enum Message {
    /// A step is done: the progress, and a description.
    ProgressUpdate { progress: u32, details: String },
    /// The installation is done.
    Finished,
    /// The installation failed, for this reason.
    Abort(String),
}

/// What the window found when it looked for a report.
pub enum Received {
    /// The window has no channel to look in.
    NoChannel,
    /// A report.
    Report(Message),
    /// No report is waiting.
    Empty,
    /// The installation's end of the channel is gone.
    Disconnected,
}

/// What the window does about what it found.
pub enum ViewAction {
    /// Show this progress and description.
    ShowProgress { progress: u32, details: String },
    /// Show the final view.
    ShowFinal,
    /// Show this message as a critical error and stop.
    CriticalError(String),
    /// Nothing.
    Wait,
}

/// The window's reaction to what it found on the channel: a progress update
/// is shown, the end of the installation (or of the channel) shows the final
/// view, a failure is shown as a critical error, and a missing channel is an
/// internal error.
pub fn update_progress_bar(received: Received) -> (res: ViewAction)
    ensures
        received is NoChannel ==> (res matches ViewAction::CriticalError(m) && m@ == "Vidinė klaida"@),
        received matches Received::Report(Message::ProgressUpdate { progress, details }) ==> (res matches ViewAction::ShowProgress { progress: p, details: d } && p == progress && d == details),
        received matches Received::Report(Message::Finished) ==> res is ShowFinal,
        received matches Received::Report(Message::Abort(m)) ==> (res matches ViewAction::CriticalError(e) && e == m),
        received is Disconnected ==> res is ShowFinal,
        received is Empty ==> res is Wait,
{
    match received {
        Received::NoChannel => ViewAction::CriticalError(String::from_str("Vidinė klaida")),
        Received::Report(Message::ProgressUpdate { progress, details }) => ViewAction::ShowProgress {
            progress,
            details,
        },
        Received::Report(Message::Finished) => ViewAction::ShowFinal,
        Received::Report(Message::Abort(abort_message)) => ViewAction::CriticalError(abort_message),
        Received::Disconnected => ViewAction::ShowFinal,
        Received::Empty => ViewAction::Wait,
    }
}

/// Whether the install button is enabled: exactly when both licences are
/// accepted.
pub fn install_button_enabled(python_license_checked: bool, vscode_license_checked: bool) -> (res: bool)
    ensures
        res == (python_license_checked && vscode_license_checked),
{
    match (python_license_checked, vscode_license_checked) {
        (true, true) => true,
        _ => false,
    }
}

} // verus!
