//! The extensions that the wrapper keeps installed.

pub mod descriptions;
pub mod extension;
pub mod gui;
pub mod run;

use crate::code::GetExtError;
use crate::extensions::extension::Extension;
use crate::text::string_views;
use vstd::prelude::*;

verus! {

/// Every extension's identifier is among the installed ones.
pub open spec fn all_installed(extensions: Seq<Extension>, installed: Seq<Seq<char>>) -> bool {
    forall|i: int| 0 <= i < extensions.len() ==> installed.contains(#[trigger] extensions[i].identifier@)
}

/// Quickly checks whether all extensions are installed, given the installed
/// extensions that VS Code reported (or why it could not report them).
pub fn quick_check(extensions: &[Extension], installed: Result<Vec<String>, GetExtError>) -> (res:
    Result<bool, GetExtError>)
    ensures
        installed matches Err(e) ==> res == Err::<bool, GetExtError>(e),
        installed matches Ok(list) ==> res == Ok::<bool, GetExtError>(
            all_installed(extensions@, string_views(list@)),
        ),
{
    match installed {
        Ok(list) => Ok(all_contained(extensions, &list)),
        Err(error) => Err(error),
    }
}

fn all_contained(extensions: &[Extension], installed: &Vec<String>) -> (res: bool)
    ensures
        res == all_installed(extensions@, string_views(installed@)),
{
    let mut i: usize = 0;
    while i < extensions.len()
        invariant
            i <= extensions@.len(),
            forall|j: int|
                0 <= j < i ==> string_views(installed@).contains(
                    #[trigger] extensions@[j].identifier@,
                ),
        decreases extensions.len() - i,
    {
        if !contains(installed, &extensions[i].identifier) {
            return false;
        }
        i = i + 1;
    }
    true
}

/// Whether `s` is among the strings of `list`.
pub fn contains(list: &Vec<String>, s: &String) -> (res: bool)
    ensures
        res == string_views(list@).contains(s@),
{
    let mut i: usize = 0;
    while i < list.len()
        invariant
            i <= list.len(),
            forall|j: int| 0 <= j < i ==> list@[j]@ != s@,
        decreases list.len() - i,
    {
        if list[i] == *s {
            assert(string_views(list@)[i as int] == s@);
            return true;
        }
        i = i + 1;
    }
    assert forall|j: int| 0 <= j < string_views(list@).len() implies string_views(list@)[j]
        != s@ by {
        assert(string_views(list@)[j] == list@[j]@);
    }
    false
}

/// Whether the installation window has to be shown: unless the quick check
/// found every extension installed, it has.
pub fn ensure_installed(extensions: &[Extension], installed: Result<Vec<String>, GetExtError>) -> (launch_gui: bool)
    ensures
        launch_gui == !(installed matches Ok(list) && all_installed(extensions@, string_views(list@))),
{
    let all = match quick_check(extensions, installed) {
        Ok(b) => b,
        Err(_) => false,
    };
    !all
}

} // verus!
