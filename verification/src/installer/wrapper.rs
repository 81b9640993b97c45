//! Putting the wrapper in place of the VS Codium executable.

use crate::path::{FsPath, PathView};
use vstd::prelude::*;

verus! {

/// The executable that VS Codium is started by, and the name it is moved
/// to so that the wrapper can take its place.
pub struct WrapperPaths {
    pub vs_code_exe: FsPath,
    pub vs_code_original: FsPath,
}

/// The VS Codium directory in the program-files directory.
pub open spec fn vs_codium_dir(program_files: PathView) -> PathView {
    program_files.join("VSCodium"@)
}

/// Where VS Codium's executable is, and where it goes: `code.exe` becomes
/// `code_original.exe`, and the wrapper becomes `code.exe`.
pub fn ensure_wrapper(program_files: &FsPath) -> (res: WrapperPaths)
    ensures
        res.vs_code_exe@ == vs_codium_dir(program_files@).join("code.exe"@),
        res.vs_code_original@ == vs_codium_dir(program_files@).join("code_original.exe"@),
{
    let vs_code_path = program_files.join("VSCodium");
    WrapperPaths {
        vs_code_exe: vs_code_path.join("code.exe"),
        vs_code_original: vs_code_path.join("code_original.exe"),
    }
}

} // verus!
