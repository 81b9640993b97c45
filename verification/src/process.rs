//! Processes as the logic sees them: what to run, and what came back.

use crate::path::{FsPath, PathView};
use vstd::prelude::*;

verus! {

/// One command-line argument: plain text, or a path that is passed as the
/// platform spells it.
pub enum Arg {
    Text(String),
    Path(FsPath),
}

/// The mathematical value of an argument.
pub enum ArgView {
    Text(Seq<char>),
    Path(PathView),
}

impl View for Arg {
    type V = ArgView;

    open spec fn view(&self) -> ArgView {
        match self {
            Arg::Text(s) => ArgView::Text(s@),
            Arg::Path(p) => ArgView::Path(p@),
        }
    }
}

/// The text arguments `args`, as argument values.
pub open spec fn text_args(args: Seq<Seq<char>>) -> Seq<ArgView> {
    args.map_values(|a: Seq<char>| ArgView::Text(a))
}

/// The views of a sequence of arguments.
pub open spec fn arg_views(args: Seq<Arg>) -> Seq<ArgView> {
    args.map_values(|a: Arg| a@)
}

/// A process to start: the program, the environment variables to set, and
/// the arguments.
pub struct Invocation {
    pub program: FsPath,
    pub env: Vec<(String, String)>,
    pub args: Vec<Arg>,
}

/// The mathematical value of an invocation.
pub struct InvocationView {
    pub program: PathView,
    pub env: Seq<(Seq<char>, Seq<char>)>,
    pub args: Seq<ArgView>,
}

impl View for Invocation {
    type V = InvocationView;

    open spec fn view(&self) -> InvocationView {
        InvocationView {
            program: self.program@,
            env: self.env@.map_values(|e: (String, String)| (e.0@, e.1@)),
            args: arg_views(self.args@),
        }
    }
}

impl Invocation {
    /// Runs `program` with the text arguments `args` and no environment
    /// variables of its own.
    pub fn with_text_args(program: &FsPath, args: &Vec<String>) -> (res: Invocation)
        ensures
            res@ == (InvocationView {
                program: program@,
                env: seq![],
                args: text_args(args@.map_values(|s: String| s@)),
            }),
    {
        let mut command_args: Vec<Arg> = Vec::new();
        push_text_args(&mut command_args, args);
        let res = Invocation { program: program.duplicate(), env: Vec::new(), args: command_args };
        assert(res@.env == Seq::<(Seq<char>, Seq<char>)>::empty());
        assert(res@.args == text_args(args@.map_values(|s: String| s@)));
        res
    }
}

/// What a finished process left behind: whether it exited successfully,
/// and the bytes it wrote to its standard output and error.
pub struct ProcessOutput {
    pub success: bool,
    pub stdout: Vec<u8>,
    pub stderr: Vec<u8>,
}

/// Appends the strings `texts` to `args` as text arguments.
pub fn push_text_args(args: &mut Vec<Arg>, texts: &Vec<String>)
    ensures
        arg_views(final(args)@) == arg_views(old(args)@) + text_args(
            texts@.map_values(|s: String| s@),
        ),
{
    let ghost start = arg_views(args@);
    let mut i: usize = 0;
    while i < texts.len()
        invariant
            i <= texts.len(),
            arg_views(args@) == start + text_args(
                texts@.take(i as int).map_values(|s: String| s@),
            ),
        decreases texts.len() - i,
    {
        args.push(Arg::Text(texts[i].clone()));
        assert(texts@.take(i + 1).map_values(|s: String| s@) == texts@.take(i as int).map_values(
            |s: String| s@,
        ).push(texts@[i as int]@));
        let ghost done = texts@.take(i as int).map_values(|s: String| s@);
        assert(text_args(done.push(texts@[i as int]@)) == text_args(done).push(
            ArgView::Text(texts@[i as int]@),
        ));
        assert((start + text_args(done)).push(ArgView::Text(texts@[i as int]@)) == start
            + text_args(done).push(ArgView::Text(texts@[i as int]@)));
        assert(arg_views(args@) == arg_views(args@.drop_last()).push(
            ArgView::Text(texts@[i as int]@),
        ));
        i = i + 1;
    }
    assert(texts@.take(texts.len() as int) == texts@);
}

} // verus!
