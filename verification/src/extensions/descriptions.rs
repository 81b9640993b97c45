//! The extensions that the wrapper installs.

use crate::extensions::extension::{Extension, PostInstall, PostInstallEffect};
use crate::path::FsPath;
use vstd::prelude::*;

verus! {

/// Microsoft's Python extension.
pub fn python_extension() -> (res: Extension)
    ensures
        res.identifier@ == "ms-python.python"@,
        res.post_install == Some(PostInstall::Python),
{
    Extension { identifier: String::from_str("ms-python.python"), post_install: Some(PostInstall::Python) }
}

/// The post-installation step of the Python extension: there is nothing to
/// do, and it succeeds.
pub fn python(vscode_exe: &FsPath) -> (res: Result<PostInstallEffect, String>)
    ensures
        res matches Ok(PostInstallEffect::Nothing),
{
    Ok(PostInstallEffect::Nothing)
}

/// The Lithuanian language pack.
pub fn vscode_language_pack_lt_extension() -> (res: Extension)
    ensures
        res.identifier@ == "vakaras.vscode-language-pack-lt"@,
        res.post_install == Some(PostInstall::VscodeLanguagePackLt),
{
    Extension {
        identifier: String::from_str("vakaras.vscode-language-pack-lt"),
        post_install: Some(PostInstall::VscodeLanguagePackLt),
    }
}

/// The post-installation step of the language pack: VS Code's locale is to
/// be set to Lithuanian, `lt`, which takes effect from VS Code's next start.
/// The step succeeds and hands the setting out to be made.
pub fn vscode_language_pack_lt(vscode_exe: &FsPath) -> (res: Result<PostInstallEffect, String>)
    ensures
        res matches Ok(PostInstallEffect::SetLocale(locale)) && locale@ == "lt"@,
{
    Ok(PostInstallEffect::SetLocale(String::from_str("lt")))
}

/// The debug visualizer.
pub fn debug_visualizer_extension() -> (res: Extension)
    ensures
        res.identifier@ == "hediet.debug-visualizer"@,
        res.post_install is None,
{
    Extension { identifier: String::from_str("hediet.debug-visualizer"), post_install: None }
}

/// The extensions that the wrapper makes sure are installed, in the order
/// in which they are installed.
pub fn extensions() -> (res: Vec<Extension>)
    ensures
        res@.len() == 3,
        res@[0].identifier@ == "ms-python.python"@,
        res@[0].post_install == Some(PostInstall::Python),
        res@[1].identifier@ == "vakaras.vscode-language-pack-lt"@,
        res@[1].post_install == Some(PostInstall::VscodeLanguagePackLt),
        res@[2].identifier@ == "hediet.debug-visualizer"@,
        res@[2].post_install is None,
{
    let mut res: Vec<Extension> = Vec::new();
    res.push(python_extension());
    res.push(vscode_language_pack_lt_extension());
    res.push(debug_visualizer_extension());
    res
}

} // verus!
