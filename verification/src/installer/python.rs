//! Installing Python and its packages.

use crate::path::{FsPath, PathView};
use crate::process::{text_args, Arg, ArgView, Invocation, InvocationView};
use crate::text::string_views;
use vstd::prelude::*;

verus! {

/// Runs the Python installer unattended, for all users, with Python on the
/// `PATH`.
pub fn install_python(path: &FsPath) -> (res: Invocation)
    ensures
        res@ == (InvocationView {
            program: path@,
            env: seq![],
            args: text_args(seq!["/passive"@, "InstallAllUsers=1"@, "PrependPath=1"@]),
        }),
{
    let mut args: Vec<String> = Vec::new();
    args.push(String::from_str("/passive"));
    args.push(String::from_str("InstallAllUsers=1"));
    args.push(String::from_str("PrependPath=1"));
    assert(string_views(args@) == seq!["/passive"@, "InstallAllUsers=1"@, "PrependPath=1"@]);
    Invocation::with_text_args(path, &args)
}

/// Where the bundled Python packages are unpacked in `tmp_dir`.
pub open spec fn packages_dir(tmp_dir: PathView) -> PathView {
    tmp_dir.join("python_packages"@)
}

/// The archive of the bundled Python packages in `tmp_dir`.
pub fn packages_zip(tmp_dir: &FsPath) -> (res: FsPath)
    ensures
        res@ == tmp_dir@.join("python_packages.zip"@),
{
    tmp_dir.join("python_packages.zip")
}

/// Installs the bundled packages with pip, offline, from the unpacked
/// packages and their `requirements.txt`.
pub fn install_packages(python_path: &FsPath, tmp_dir: &FsPath) -> (res: Invocation)
    ensures
        res@ == (InvocationView {
            program: python_path@,
            env: seq![],
            args: text_args(seq!["-m"@, "pip"@, "install"@, "--no-index"@, "--find-links"@]) + seq![
                ArgView::Path(packages_dir(tmp_dir@)),
                ArgView::Text("-r"@),
                ArgView::Path(packages_dir(tmp_dir@).join("requirements.txt"@)),
            ],
        }),
{
    let extracted_path = tmp_dir.join("python_packages");
    let requirements = extracted_path.join("requirements.txt");
    let mut words: Vec<String> = Vec::new();
    words.push(String::from_str("-m"));
    words.push(String::from_str("pip"));
    words.push(String::from_str("install"));
    words.push(String::from_str("--no-index"));
    words.push(String::from_str("--find-links"));
    assert(string_views(words@) == seq!["-m"@, "pip"@, "install"@, "--no-index"@, "--find-links"@]);
    let mut res = Invocation::with_text_args(python_path, &words);
    res.args.push(Arg::Path(extracted_path));
    res.args.push(Arg::Text(String::from_str("-r")));
    res.args.push(Arg::Path(requirements));
    assert(res@.args == text_args(seq!["-m"@, "pip"@, "install"@, "--no-index"@, "--find-links"@])
        + seq![
        ArgView::Path(packages_dir(tmp_dir@)),
        ArgView::Text("-r"@),
        ArgView::Path(packages_dir(tmp_dir@).join("requirements.txt"@)),
    ]);
    res
}

/// The Python interpreter in the program-files directory `program_files`:
/// Python 3.8, the last one that runs on Windows 7.
pub fn find_python(program_files: &FsPath) -> (res: FsPath)
    ensures
        res@ == program_files@.join("Python38"@).join("python.exe"@),
{
    program_files.join("Python38").join("python.exe")
}

} // verus!
