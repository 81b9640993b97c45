//! Decision and text-processing logic of the Smauglys VS Code installer and wrapper.

pub mod code;
pub mod extension_installer;
pub mod extensions;
pub mod installer;
pub mod path;
pub mod process;
pub mod text;
