//! Installing VS Codium.

use crate::path::{FsPath, PathView};
use crate::process::{text_args, Arg, ArgView, Invocation, InvocationView};
use crate::text::string_views;
use vstd::prelude::*;

verus! {

/// Runs the VS Codium installer silently, without starting it afterwards.
pub fn install_vscode(path: &FsPath) -> (res: Invocation)
    ensures
        res@ == (InvocationView {
            program: path@,
            env: seq![],
            args: text_args(seq!["/SILENT"@, "/mergetasks=!runcode"@]),
        }),
{
    let mut args: Vec<String> = Vec::new();
    args.push(String::from_str("/SILENT"));
    args.push(String::from_str("/mergetasks=!runcode"));
    assert(string_views(args@) == seq!["/SILENT"@, "/mergetasks=!runcode"@]);
    Invocation::with_text_args(path, &args)
}

/// Sets the machine-wide `VSCODE_EXTENSIONS` variable to the directory
/// `VS Code Extensions` in the program-files directory `program_files`.
pub fn set_extensions_path(program_files: &FsPath) -> (res: Invocation)
    ensures
        res@ == (InvocationView {
            program: PathView { root: ""@, names: seq!["setx"@] },
            env: seq![],
            args: text_args(seq!["/M"@, "VSCODE_EXTENSIONS"@]) + seq![
                ArgView::Path(program_files@.join("VS Code Extensions"@)),
            ],
        }),
{
    let extensions_path = program_files.join("VS Code Extensions");
    let mut names: Vec<String> = Vec::new();
    names.push(String::from_str("setx"));
    let program = FsPath::new("", &names);
    let mut words: Vec<String> = Vec::new();
    words.push(String::from_str("/M"));
    words.push(String::from_str("VSCODE_EXTENSIONS"));
    assert(string_views(words@) == seq!["/M"@, "VSCODE_EXTENSIONS"@]);
    let mut res = Invocation::with_text_args(&program, &words);
    res.args.push(Arg::Path(extensions_path));
    assert(res@.program.names == seq!["setx"@]);
    assert(res@.args == text_args(seq!["/M"@, "VSCODE_EXTENSIONS"@]) + seq![
        ArgView::Path(program_files@.join("VS Code Extensions"@)),
    ]);
    res
}

} // verus!
