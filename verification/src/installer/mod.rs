//! The installer of Python, VS Codium and the wrapper.

pub mod command;
pub mod error;
pub mod gui;
pub mod installation;
pub mod python;
pub mod vscode;
pub mod wrapper;
