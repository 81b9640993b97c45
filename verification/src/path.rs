//! File-system paths as the logic sees them: a root (a drive prefix and/or
//! the root directory, possibly empty for a relative path) and the names
//! that follow it.

use vstd::prelude::*;

verus! {

/// A path: `root` followed by `names`.
#[derive(Debug)]
pub struct FsPath {
    /// The prefix and root directory, such as `C:\` or `/`; empty for a
    /// relative path.
    pub root: String,
    /// The components after the root, in order.
    pub names: Vec<String>,
}

/// The mathematical value of a path: its root and its names.
pub struct PathView {
    pub root: Seq<char>,
    pub names: Seq<Seq<char>>,
}

impl View for FsPath {
    type V = PathView;

    open spec fn view(&self) -> PathView {
        PathView { root: self.root@, names: self.names@.map_values(|s: String| s@) }
    }
}

/// Whether a component names a file, as `Path::file_name` sees it: `.` and
/// `..` do not.
pub open spec fn names_file(name: Seq<char>) -> bool {
    name != seq!['.'] && name != seq!['.', '.']
}

impl PathView {
    /// This path with `name` appended.
    pub open spec fn join(self, name: Seq<char>) -> PathView {
        PathView { root: self.root, names: self.names.push(name) }
    }

    /// The parent: the last name dropped, if there is one.
    pub open spec fn parent(self) -> PathView {
        if self.names.len() == 0 {
            self
        } else {
            PathView { root: self.root, names: self.names.drop_last() }
        }
    }

    /// This path with its file name replaced by `name`, or with `name`
    /// appended where it has no file name.
    pub open spec fn with_file_name(self, name: Seq<char>) -> PathView {
        if self.names.len() > 0 && names_file(self.names.last()) {
            PathView { root: self.root, names: self.names.drop_last().push(name) }
        } else {
            self.join(name)
        }
    }
}

/// Replacing the file name of a path keeps its directory: the new file
/// stands beside the old one.
pub proof fn law_file_name_replaced_in_place(p: PathView, name: Seq<char>)
    requires
        p.names.len() > 0,
        names_file(p.names.last()),
    ensures
        p.with_file_name(name).parent() == p.parent(),
        p.with_file_name(name).names.last() == name,
{
    assert(p.names.drop_last().push(name).drop_last() == p.names.drop_last());
}

fn clone_strings(v: &Vec<String>) -> (res: Vec<String>)
    ensures
        res@ == v@,
{
    let mut res: Vec<String> = Vec::new();
    let mut i: usize = 0;
    while i < v.len()
        invariant
            i <= v.len(),
            res@ == v@.take(i as int),
        decreases v.len() - i,
    {
        res.push(v[i].clone());
        assert(v@.take(i + 1) == v@.take(i as int).push(v@[i as int]));
        i = i + 1;
    }
    assert(v@.take(v.len() as int) == v@);
    res
}

fn is_dot_name(name: &String) -> (b: bool)
    ensures
        b == !names_file(name@),
{
    let n = name.as_str().unicode_len();
    if n == 1 {
        let c = name.as_str().get_char(0);
        assert(c == '.' ==> name@ == seq!['.']);
        c == '.'
    } else if n == 2 {
        let c0 = name.as_str().get_char(0);
        let c1 = name.as_str().get_char(1);
        assert(c0 == '.' && c1 == '.' ==> name@ == seq!['.', '.']);
        c0 == '.' && c1 == '.'
    } else {
        false
    }
}

impl FsPath {
    /// A path with the given root and names.
    pub fn new(root: &str, names: &Vec<String>) -> (res: FsPath)
        ensures
            res@.root == root@,
            res@.names == names@.map_values(|s: String| s@),
    {
        FsPath { root: String::from_str(root), names: clone_strings(names) }
    }

    /// A copy of this path.
    pub fn duplicate(&self) -> (res: FsPath)
        ensures
            res@ == self@,
    {
        FsPath { root: self.root.clone(), names: clone_strings(&self.names) }
    }

    /// This path with `name` appended (`Path::join` with a single name).
    pub fn join(&self, name: &str) -> (res: FsPath)
        ensures
            res@ == self@.join(name@),
    {
        let mut res = self.duplicate();
        res.names.push(String::from_str(name));
        assert(res@.names == self@.names.push(name@));
        res
    }

    /// Removes the last name, if there is one (`PathBuf::pop`).
    pub fn pop(&mut self) -> (popped: bool)
        ensures
            final(self)@ == old(self)@.parent(),
            popped == (old(self)@.names.len() > 0),
    {
        if self.names.len() > 0 {
            self.names.pop();
            assert(self@.names == old(self)@.names.drop_last());
            true
        } else {
            false
        }
    }

    /// Replaces the file name by `name`, or appends `name` where there is no
    /// file name (`PathBuf::set_file_name`).
    pub fn set_file_name(&mut self, name: &str)
        ensures
            final(self)@ == old(self)@.with_file_name(name@),
    {
        let n = self.names.len();
        if n > 0 && !is_dot_name(&self.names[n - 1]) {
            self.names.pop();
            self.names.push(String::from_str(name));
            assert(self@.names == old(self)@.names.drop_last().push(name@));
        } else {
            self.names.push(String::from_str(name));
            assert(self@.names == old(self)@.names.push(name@));
        }
    }
}

} // verus!
