//! How VS Code is driven: which processes to start, and what their output
//! means.

use crate::path::{FsPath, PathView};
use crate::process::{
    arg_views, push_text_args, text_args, Arg, ArgView, Invocation, InvocationView, ProcessOutput,
};
use crate::text::{
    split_whitespace, string_from_utf8, string_from_utf8_lossy, string_views, utf8_lossy, words,
};
use vstd::prelude::*;
use vstd::utf8::{decode_utf8, valid_utf8};

verus! {

/// Why the list of installed extensions could not be had.
pub enum GetExtError {
    /// VS Code could not be run; the operating system's message.
    IoError(String),
    /// VS Code's output was not UTF-8; the decoder's message.
    FromUtf8Error(String),
}

impl GetExtError {
    /// The text that describes the error.
    pub open spec fn text(&self) -> Seq<char> {
        match self {
            GetExtError::IoError(m) => m@,
            GetExtError::FromUtf8Error(m) => m@,
        }
    }

    /// The text that describes the error (its `Display`).
    pub fn message(&self) -> (res: String)
        ensures
            res@ == self.text(),
    {
        match self {
            GetExtError::IoError(m) => m.clone(),
            GetExtError::FromUtf8Error(m) => m.clone(),
        }
    }
}

/// Why an extension could not be installed.
pub enum InstallExtError {
    /// VS Code could not be run; the operating system's message.
    IoError(String),
    /// VS Code ran and reported failure; what it printed.
    ExecutionFailed { stdout: String, stderr: String },
}

/// The path of the original VS Code executable, `code_original.exe`, which
/// sits beside this wrapper.
pub fn get_vscode_original_exe(current_exe: &FsPath) -> (res: FsPath)
    ensures
        res@ == current_exe@.with_file_name("code_original.exe"@),
{
    let mut code_original_exe = current_exe.duplicate();
    code_original_exe.set_file_name("code_original.exe");
    code_original_exe
}

/// The command-line script of VS Code: `resources/app/out/cli.js` beside
/// the executable.
pub open spec fn cli_path(vscode_exe: PathView) -> PathView {
    vscode_exe.parent().join("resources"@).join("app"@).join("out"@).join("cli.js"@)
}

/// VS Code's command-line script run with `args`: the executable is run as
/// Node (`ELECTRON_RUN_AS_NODE=1`) on `cli.js`.
pub open spec fn vs_code_command(vscode_exe: PathView, args: Seq<Seq<char>>) -> InvocationView {
    InvocationView {
        program: vscode_exe,
        env: seq![("ELECTRON_RUN_AS_NODE"@, "1"@)],
        args: seq![ArgView::Path(cli_path(vscode_exe))] + text_args(args),
    }
}

/// Runs VS Code's command-line script with `args`.
pub fn create_vs_code_command(vscode_exe: &FsPath, args: &Vec<String>) -> (res: Invocation)
    ensures
        res@ == vs_code_command(vscode_exe@, string_views(args@)),
{
    let mut cli = vscode_exe.duplicate();
    cli.pop();
    let cli = cli.join("resources").join("app").join("out").join("cli.js");
    let mut env: Vec<(String, String)> = Vec::new();
    env.push((String::from_str("ELECTRON_RUN_AS_NODE"), String::from_str("1")));
    let mut command_args: Vec<Arg> = Vec::new();
    command_args.push(Arg::Path(cli));
    push_text_args(&mut command_args, args);
    let res = Invocation { program: vscode_exe.duplicate(), env, args: command_args };
    assert(res@.env == seq![("ELECTRON_RUN_AS_NODE"@, "1"@)]);
    assert(res@.args == seq![ArgView::Path(cli_path(vscode_exe@))] + text_args(
        string_views(args@),
    ));
    res
}

/// The arguments after the first one; none when there are none.
pub open spec fn after_first(args: Seq<Seq<char>>) -> Seq<Seq<char>> {
    if args.len() == 0 {
        seq![]
    } else {
        args.skip(1)
    }
}

/// Every argument but the first is passed on, in order: with `n > 0`
/// arguments, `n - 1` are forwarded, the `i`-th of them being argument
/// `i + 1`; with none, none are.
pub proof fn law_arguments_forwarded(args: Seq<Seq<char>>)
    ensures
        args.len() == 0 ==> after_first(args).len() == 0,
        args.len() > 0 ==> after_first(args).len() == args.len() - 1,
        forall|i: int| 0 <= i < args.len() - 1 ==> #[trigger] after_first(args)[i] == args[i + 1],
{
}

/// The command-line script lies in the executable's own directory: the
/// path keeps the executable's root and every name but its last (all of
/// them when it has none), followed by `resources/app/out/cli.js`.
pub proof fn law_cli_path_beside_executable(vscode_exe: PathView)
    ensures
        cli_path(vscode_exe).root == vscode_exe.root,
        vscode_exe.names.len() > 0 ==> cli_path(vscode_exe).names == vscode_exe.names.subrange(
            0,
            vscode_exe.names.len() - 1,
        ) + seq!["resources"@, "app"@, "out"@, "cli.js"@],
        vscode_exe.names.len() == 0 ==> cli_path(vscode_exe).names == seq![
            "resources"@,
            "app"@,
            "out"@,
            "cli.js"@,
        ],
{
    let n = vscode_exe.names;
    if n.len() > 0 {
        assert(cli_path(vscode_exe).names =~= n.subrange(0, n.len() - 1) + seq![
            "resources"@,
            "app"@,
            "out"@,
            "cli.js"@,
        ]);
    } else {
        assert(cli_path(vscode_exe).names =~= seq!["resources"@, "app"@, "out"@, "cli.js"@]);
    }
}

/// Starts VS Code with the arguments this program got, without the first
/// one (the program's own name).
pub fn start_vs_code(vscode_exe: &FsPath, process_args: &Vec<String>) -> (res: Invocation)
    ensures
        res@.program == vscode_exe@,
        res@.env.len() == 0,
        res@.args == text_args(after_first(string_views(process_args@))),
        process_args@.len() > 0 ==> res@.args.len() == process_args@.len() - 1,
        forall|i: int|
            0 < i < process_args@.len() ==> #[trigger] res@.args[i - 1] == ArgView::Text(
                process_args@[i]@,
            ),
{
    let ghost views = string_views(process_args@);
    let mut args: Vec<Arg> = Vec::new();
    if process_args.len() == 0 {
        assert(arg_views(args@) == text_args(after_first(views)));
        return Invocation { program: vscode_exe.duplicate(), env: Vec::new(), args };
    }
    let mut i: usize = 1;
    while i < process_args.len()
        invariant
            1 <= i <= process_args.len(),
            views == string_views(process_args@),
            arg_views(args@) == text_args(views.subrange(1, i as int)),
        decreases process_args.len() - i,
    {
        args.push(Arg::Text(process_args[i].clone()));
        assert(views.subrange(1, i + 1) == views.subrange(1, i as int).push(views[i as int]));
        assert(text_args(views.subrange(1, i + 1)) == text_args(views.subrange(1, i as int)).push(
            ArgView::Text(views[i as int]),
        ));
        assert(arg_views(args@) == arg_views(args@.drop_last()).push(
            ArgView::Text(views[i as int]),
        ));
        i = i + 1;
    }
    assert(views.subrange(1, views.len() as int) == views.skip(1));
    Invocation { program: vscode_exe.duplicate(), env: Vec::new(), args }
}

/// Asks VS Code for its installed extensions (`--list-extensions`).
pub fn get_installed_extensions_command(vscode_exe: &FsPath) -> (res: Invocation)
    ensures
        res@ == vs_code_command(vscode_exe@, seq!["--list-extensions"@]),
{
    let mut args: Vec<String> = Vec::new();
    args.push(String::from_str("--list-extensions"));
    assert(string_views(args@) == seq!["--list-extensions"@]);
    create_vs_code_command(vscode_exe, &args)
}

/// The installed extensions, from the run of `--list-extensions`: the
/// white-space separated words of its standard output, in order.  They are
/// kept in a `Vec` rather than a set: a word that occurs twice stays twice,
/// and what callers ask of the list, whether an identifier is in it, is the
/// same.
pub fn get_installed_extensions(output: Result<ProcessOutput, String>) -> (res: Result<
    Vec<String>,
    GetExtError,
>)
    ensures
        output matches Err(e) ==> (res matches Err(GetExtError::IoError(m)) && m@ == e@),
        output matches Ok(o) ==> (valid_utf8(o.stdout@) <==> res is Ok),
        output matches Ok(o) ==> (res matches Ok(v) ==> string_views(v@) == words(
            decode_utf8(o.stdout@),
        )),
        output is Ok ==> (res is Err ==> res matches Err(GetExtError::FromUtf8Error(_))),
{
    match output {
        Err(e) => Err(GetExtError::IoError(e)),
        Ok(o) => match string_from_utf8(o.stdout) {
            Ok(stdout) => Ok(split_whitespace(stdout.as_str())),
            Err(error) => Err(GetExtError::FromUtf8Error(error.to_string())),
        },
    }
}

/// Asks VS Code to install `extension`.
pub fn install_extension_command(vscode_exe: &FsPath, extension: &str) -> (res: Invocation)
    ensures
        res@ == vs_code_command(vscode_exe@, seq![""@, "--install-extension"@, extension@]),
{
    let mut args: Vec<String> = Vec::new();
    args.push(String::from_str(""));
    args.push(String::from_str("--install-extension"));
    args.push(String::from_str(extension));
    assert(string_views(args@) == seq![""@, "--install-extension"@, extension@]);
    create_vs_code_command(vscode_exe, &args)
}

/// The outcome of an installation, from the run of `--install-extension`:
/// success exactly when VS Code exited successfully; otherwise what it
/// printed, decoded leniently.
pub fn install_extension(output: Result<ProcessOutput, String>) -> (res: Result<
    (),
    InstallExtError,
>)
    ensures
        output matches Err(e) ==> (res matches Err(InstallExtError::IoError(m)) && m@ == e@),
        output matches Ok(o) ==> (o.success <==> res is Ok),
        output matches Ok(o) ==> (!o.success ==> (res matches Err(
            InstallExtError::ExecutionFailed { stdout, stderr },
        ) && stdout@ == utf8_lossy(o.stdout@) && stderr@ == utf8_lossy(o.stderr@))),
{
    match output {
        Err(e) => Err(InstallExtError::IoError(e)),
        Ok(o) => {
            let stdout = string_from_utf8_lossy(&o.stdout);
            let stderr = string_from_utf8_lossy(&o.stderr);
            if o.success {
                Ok(())
            } else {
                Err(InstallExtError::ExecutionFailed { stdout, stderr })
            }
        },
    }
}

/// The entry of VS Code's `argv.json` that sets the display language.
pub open spec fn locale_entry(locale: Seq<char>) -> Seq<char> {
    "\"locale\": \""@ + locale + "\""@
}

/// Whether `text` holds the key `"locale"`.
pub open spec fn has_locale_key(text: Seq<char>) -> bool {
    exists|k: int|
        0 <= k && k + "\"locale\""@.len() <= text.len() && #[trigger] text.subrange(
            k,
            k + "\"locale\""@.len(),
        ) == "\"locale\""@
}

/// `k` is where the first `{` of `text` is.
pub open spec fn is_first_brace(text: Seq<char>, k: int) -> bool {
    &&& 0 <= k < text.len()
    &&& text[k] == '{'
    &&& forall|m: int| 0 <= m < k ==> #[trigger] text[m] != '{'
}

/// An `argv.json` that holds only the locale.
pub open spec fn argv_with_only_locale(locale: Seq<char>) -> Seq<char> {
    "{\n\t"@ + locale_entry(locale) + "\n}\n"@
}

/// The new text of VS Code's `argv.json`, which held `existing` (nothing when
/// there is no such file), so that it sets the display language to
/// `locale`; `None` when it already sets a locale, which is kept.  The entry
/// goes first in the object, followed by a comma when the object has
/// entries (the rest of it holds a `"`); without an object, the file holds
/// only the entry.
pub open spec fn argv_with_locale(existing: Option<Seq<char>>, locale: Seq<char>) -> Option<Seq<char>> {
    match existing {
        None => Some(argv_with_only_locale(locale)),
        Some(text) => if has_locale_key(text) {
            None
        } else if exists|k: int| is_first_brace(text, k) {
            let k = choose|k: int| is_first_brace(text, k);
            let rest = text.skip(k + 1);
            Some(text.take(k + 1) + "\n\t"@ + locale_entry(locale) + (if rest.contains('"') {
                ","@
            } else {
                ""@
            }) + rest)
        } else {
            Some(argv_with_only_locale(locale))
        },
    }
}

/// Setting the locale in an `argv.json` that has an object and no locale
/// yet puts the entry right after the object's first `{` and keeps every
/// other character in place; the entry is followed by a comma exactly when
/// an entry follows it in the object (the rest of the text holds a `"`,
/// whatever comments or white space stand before it).
pub proof fn law_locale_entry_inserted(text: Seq<char>, locale: Seq<char>, k: int)
    requires
        !has_locale_key(text),
        is_first_brace(text, k),
    ensures
        ({
            let entry = "\n\t"@ + locale_entry(locale);
            let rest = text.subrange(k + 1, text.len() as int);
            let r = argv_with_locale(Some(text), locale).unwrap();
            &&& argv_with_locale(Some(text), locale) is Some
            &&& r.subrange(0, k + 1) == text.subrange(0, k + 1)
            &&& r.subrange(k + 1, k + 1 + entry.len()) == entry
            &&& rest.contains('"') ==> r.len() == text.len() + entry.len() + 1 && r[k + 1
                + entry.len()] == ',' && r.subrange(k + 2 + entry.len(), r.len() as int) == rest
            &&& !rest.contains('"') ==> r.len() == text.len() + entry.len() && r.subrange(
                k + 1 + entry.len(),
                r.len() as int,
            ) == rest
        }),
{
    let c = choose|c: int| is_first_brace(text, c);
    if c < k {
        assert(text[c] != '{');
    } else if c > k {
        assert(text[k] != '{');
    }
    let entry = "\n\t"@ + locale_entry(locale);
    let rest = text.skip(k + 1);
    assert(rest == text.subrange(k + 1, text.len() as int));
    let head = text.take(k + 1);
    let r = argv_with_locale(Some(text), locale).unwrap();
    if rest.contains('"') {
        assert(r == head + entry + ","@ + rest);
        reveal_strlit(",");
        assert(r.subrange(0, k + 1) =~= text.subrange(0, k + 1));
        assert(r.subrange(k + 1, k + 1 + entry.len()) =~= entry);
        assert(r[k + 1 + entry.len()] == ',');
        assert(r.subrange(k + 2 + entry.len(), r.len() as int) =~= rest);
    } else {
        reveal_strlit("");
        assert(r == head + entry + ""@ + rest);
        assert(r.subrange(0, k + 1) =~= text.subrange(0, k + 1));
        assert(r.subrange(k + 1, k + 1 + entry.len()) =~= entry);
        assert(r.subrange(k + 1 + entry.len(), r.len() as int) =~= rest);
    }
}

/// Without an `argv.json`, the new file holds only the locale entry; an
/// `argv.json` that already sets a locale is left as it is.
pub proof fn law_locale_new_or_kept(text: Seq<char>, locale: Seq<char>)
    ensures
        argv_with_locale(None, locale) == Some("{\n\t\"locale\": \""@ + locale + "\"\n}\n"@),
        has_locale_key(text) ==> argv_with_locale(Some(text), locale) is None,
{
    reveal_strlit("{\n\t\"locale\": \"");
    reveal_strlit("\"\n}\n");
    reveal_strlit("{\n\t");
    reveal_strlit("\"locale\": \"");
    reveal_strlit("\"");
    reveal_strlit("\n}\n");
    assert(argv_with_only_locale(locale) =~= "{\n\t\"locale\": \""@ + locale + "\"\n}\n"@);
}

fn holds_locale_key(text: &str) -> (res: bool)
    ensures
        res == has_locale_key(text@),
{
    let key = "\"locale\"";
    proof {
        reveal_strlit("\"locale\"");
    }
    let key_string = String::from_str(key);
    let key_len = key.unicode_len();
    let n = text.unicode_len();
    let mut k: usize = 0;
    while key_len <= n - k
        invariant
            k <= n,
            n == text@.len(),
            key_len == key@.len(),
            key_len == 8,
            key@ == "\"locale\""@,
            key_string@ == key@,
            forall|m: int|
                0 <= m < k && m + key_len <= n ==> #[trigger] text@.subrange(m, m + key_len)
                    != key@,
        decreases n - k,
    {
        let candidate = String::from_str(text.substring_char(k, k + key_len));
        if candidate == key_string {
            assert(text@.subrange(k as int, k + key_len) == "\"locale\""@);
            return true;
        }
        k = k + 1;
    }
    false
}

fn first_brace(text: &str) -> (res: Option<usize>)
    ensures
        res matches Some(k) ==> is_first_brace(text@, k as int),
        res is None ==> !exists|k: int| is_first_brace(text@, k),
{
    let n = text.unicode_len();
    let mut i: usize = 0;
    while i < n
        invariant
            n == text@.len(),
            i <= n,
            forall|m: int| 0 <= m < i ==> #[trigger] text@[m] != '{',
        decreases n - i,
    {
        if text.get_char(i) == '{' {
            return Some(i);
        }
        i = i + 1;
    }
    None
}

fn holds_quote(text: &str) -> (res: bool)
    ensures
        res == text@.contains('"'),
{
    let n = text.unicode_len();
    let mut i: usize = 0;
    while i < n
        invariant
            n == text@.len(),
            i <= n,
            forall|m: int| 0 <= m < i ==> #[trigger] text@[m] != '"',
        decreases n - i,
    {
        if text.get_char(i) == '"' {
            return true;
        }
        i = i + 1;
    }
    false
}

/// Sets VS Code's display language to `locale` in the text of its
/// `argv.json` (see `argv_with_locale`): the new text, or `None` when the
/// file is to stay as it is.
pub fn set_locale(existing: Option<String>, locale: &str) -> (res: Option<String>)
    ensures
        match res {
            Some(t) => argv_with_locale(
                match existing {
                    Some(e) => Some(e@),
                    None => None,
                },
                locale@,
            ) == Some(t@),
            None => argv_with_locale(
                match existing {
                    Some(e) => Some(e@),
                    None => None,
                },
                locale@,
            ) is None,
        },
{
    let entry = String::from_str("\"locale\": \"").concat(locale).concat("\"");
    assert(entry@ == locale_entry(locale@));
    let only = String::from_str("{\n\t").concat(entry.as_str()).concat("\n}\n");
    assert(only@ == argv_with_only_locale(locale@));
    match existing {
        None => Some(only),
        Some(text) => {
            if holds_locale_key(text.as_str()) {
                return None;
            }
            match first_brace(text.as_str()) {
                None => Some(only),
                Some(k) => {
                    let n = text.as_str().unicode_len();
                    let head = text.as_str().substring_char(0, k + 1);
                    let rest = text.as_str().substring_char(k + 1, n);
                    let separator = if holds_quote(rest) {
                        ","
                    } else {
                        ""
                    };
                    let res = String::from_str(head).concat("\n\t").concat(entry.as_str()).concat(
                        separator,
                    ).concat(rest);
                    assert(text@.take(k + 1) == text@.subrange(0, k + 1));
                    assert(text@.skip(k + 1) == text@.subrange(k + 1, n as int));
                    proof {
                        let c = choose|c: int| is_first_brace(text@, c);
                        if c < k {
                            assert(text@[c] != '{');
                        } else if c > k {
                            assert(text@[k as int] != '{');
                        }
                    }
                    Some(res)
                },
            }
        },
    }
}

} // verus!
