//! The command lines of the transfer tool, and what to make of a run of them.
//!
//! Each function here that is named after a command gives the arguments that
//! the tool is to be run with; the caller runs it and hands back what came of
//! it, as a [`CommandOutput`] or as the reason why it could not be run.

use crate::text::{
    joined, lines, push_text, push_texts, split_lines, strip_trailing, strip_white_space, texts,
    trimmed, without_trailing,
};
use vstd::prelude::*;
use vstd::string::*;

verus! {

/// What a run of the tool left behind, its output as text.
#[derive(Debug, Clone)]
pub struct CommandOutput {
    pub success: bool,
    pub stdout: String,
    pub stderr: String,
}

/// One run of the tool that is to be made.
#[derive(Debug, Clone)]
pub struct Invocation {
    /// The arguments, in order.
    pub args: Vec<String>,
    /// How an error starts that says that the tool could not be run.
    pub run_error: String,
    /// How an error starts that says that the output could not be parsed, for a
    /// command whose output is parsed.
    pub parse_error: Option<String>,
}

/// What an [`Invocation`] holds, as mathematical values.
pub ghost struct InvocationView {
    pub args: Seq<Seq<char>>,
    pub run_error: Seq<char>,
    pub parse_error: Option<Seq<char>>,
}

impl View for Invocation {
    type V = InvocationView;

    open spec fn view(&self) -> InvocationView {
        InvocationView {
            args: texts(self.args@),
            run_error: self.run_error@,
            parse_error: match self.parse_error {
                Some(prefix) => Some(prefix@),
                None => None,
            },
        }
    }
}

/// The texts of a list of pairs of strings.
pub open spec fn pair_texts(pairs: Seq<(String, String)>) -> Seq<(Seq<char>, Seq<char>)> {
    Seq::new(pairs.len(), |i: int| (pairs[i].0@, pairs[i].1@))
}

/// The view of a text that may be absent.
pub open spec fn text_view(text: Option<String>) -> Option<Seq<char>> {
    match text {
        Some(t) => Some(t@),
        None => None,
    }
}

/// The view of a result that holds text on either side.
pub open spec fn result_view(result: Result<String, String>) -> Result<Seq<char>, Seq<char>> {
    match result {
        Ok(text) => Ok(text@),
        Err(message) => Err(message@),
    }
}

/// The view of a result that holds text in its error only.
pub open spec fn done_view(result: Result<(), String>) -> Result<(), Seq<char>> {
    match result {
        Ok(()) => Ok(()),
        Err(message) => Err(message@),
    }
}

/// The view of a run that was made, or could not be made.
pub open spec fn run_view(run: Result<CommandOutput, String>) -> Result<
    (bool, Seq<char>, Seq<char>),
    Seq<char>,
> {
    match run {
        Ok(output) => Ok((output.success, output.stdout@, output.stderr@)),
        Err(detail) => Err(detail@),
    }
}

/// The place `path` on the remote `remote`, as the tool writes it.
pub open spec fn remote_path_of(remote: Seq<char>, path: Seq<char>) -> Seq<char> {
    remote + ":"@ + path
}

/// The keys and values of `pairs` in one list: each key, then its value.
pub open spec fn flattened(pairs: Seq<(Seq<char>, Seq<char>)>) -> Seq<Seq<char>>
    decreases pairs.len(),
{
    if pairs.len() == 0 {
        Seq::<Seq<char>>::empty()
    } else {
        flattened(pairs.drop_last()).push(pairs.last().0).push(pairs.last().1)
    }
}

/// The arguments of a transfer: what to do, from where, to where; then the
/// arguments that make the tool log JSON and report statistics every second, at
/// a level that the log shows; then the caller's own flags, last, so that they
/// can override any of these.
pub open spec fn transfer_args_of(
    op: Seq<char>,
    source: Seq<char>,
    dest: Seq<char>,
    flags: Seq<Seq<char>>,
) -> Seq<Seq<char>> {
    seq![
        op,
        source,
        dest,
        "--use-json-log"@,
        "--stats"@,
        "1s"@,
        "--stats-log-level"@,
        "NOTICE"@,
        "--log-format"@,
        "json"@,
    ] + flags
}

/// The names of the remotes in a listing of `listed` lines: each line without
/// the colons at its end, empty names left out.
pub open spec fn names_in(listed: Seq<Seq<char>>) -> Seq<Seq<char>>
    decreases listed.len(),
{
    if listed.len() == 0 {
        Seq::<Seq<char>>::empty()
    } else {
        let name = without_trailing(listed.last(), ':');
        if name.len() > 0 {
            names_in(listed.drop_last()).push(name)
        } else {
            names_in(listed.drop_last())
        }
    }
}

/// What a run comes to: the error that it could not be made, which starts with
/// `run_error`; the tool's own error text where the tool failed; its output
/// where it succeeded.
pub open spec fn output_of(
    run_error: Seq<char>,
    run: Result<(bool, Seq<char>, Seq<char>), Seq<char>>,
) -> Result<Seq<char>, Seq<char>> {
    match run {
        Err(detail) => Err(run_error + ": "@ + detail),
        Ok((success, stdout, stderr)) => if success {
            Ok(stdout)
        } else {
            Err(stderr)
        },
    }
}

/// The name under which the tool is found on the search path.
pub fn program() -> (name: &'static str)
    ensures
        name@ == "rclone"@,
{
    "rclone"
}

/// The place `path` on the remote `remote`.
pub fn remote_path(remote: &str, path: &str) -> (place: String)
    ensures
        place@ == remote_path_of(remote@, path@),
{
    let mut place = joined(remote, ":");
    place.append(path);
    place
}

fn invocation(args: Vec<String>, run_error: &str, parse_error: Option<&str>) -> (command:
    Invocation)
    ensures
        command@ == (InvocationView {
            args: texts(args@),
            run_error: run_error@,
            parse_error: match parse_error {
                Some(prefix) => Some(prefix@),
                None => None,
            },
        }),
{
    Invocation {
        args,
        run_error: run_error.to_owned(),
        parse_error: match parse_error {
            Some(prefix) => Some(prefix.to_owned()),
            None => None,
        },
    }
}

/// The listing of the configured remotes.
pub fn list_remotes() -> (command: Invocation)
    ensures
        command@ == (InvocationView {
            args: seq!["listremotes"@, "--use-json-log"@],
            run_error: "Failed to run rclone"@,
            parse_error: None,
        }),
{
    let mut args: Vec<String> = Vec::new();
    push_text(&mut args, "listremotes");
    push_text(&mut args, "--use-json-log");
    assert(texts(args@) =~= seq!["listremotes"@, "--use-json-log"@]);
    invocation(args, "Failed to run rclone", None)
}

/// The listing, as JSON, of what the remote holds under `path`.
pub fn list_files(remote: &str, path: &str) -> (command: Invocation)
    ensures
        command@ == (InvocationView {
            args: seq!["lsjson"@, remote_path_of(remote@, path@), "--use-json-log"@],
            run_error: "Failed to run rclone lsjson"@,
            parse_error: Some("Failed to parse rclone output"@),
        }),
{
    let place = remote_path(remote, path);
    let mut args: Vec<String> = Vec::new();
    push_text(&mut args, "lsjson");
    push_text(&mut args, place.as_str());
    push_text(&mut args, "--use-json-log");
    assert(texts(args@) =~= seq!["lsjson"@, remote_path_of(remote@, path@), "--use-json-log"@]);
    invocation(args, "Failed to run rclone lsjson", Some("Failed to parse rclone output"))
}

/// The usage figures of the remote, as JSON.
pub fn about(remote: &str) -> (command: Invocation)
    ensures
        command@ == (InvocationView {
            args: seq!["about"@, remote@ + ":"@, "--json"@],
            run_error: "Failed to run rclone about"@,
            parse_error: Some("Failed to parse rclone about output"@),
        }),
{
    let place = joined(remote, ":");
    let mut args: Vec<String> = Vec::new();
    push_text(&mut args, "about");
    push_text(&mut args, place.as_str());
    push_text(&mut args, "--json");
    assert(texts(args@) =~= seq!["about"@, remote@ + ":"@, "--json"@]);
    invocation(args, "Failed to run rclone about", Some("Failed to parse rclone about output"))
}

/// The making of the directory `path` on the remote.
pub fn mkdir(remote: &str, path: &str) -> (command: Invocation)
    ensures
        command@ == (InvocationView {
            args: seq!["mkdir"@, remote_path_of(remote@, path@)],
            run_error: "Failed to run rclone mkdir"@,
            parse_error: None,
        }),
{
    let place = remote_path(remote, path);
    let mut args: Vec<String> = Vec::new();
    push_text(&mut args, "mkdir");
    push_text(&mut args, place.as_str());
    assert(texts(args@) =~= seq!["mkdir"@, remote_path_of(remote@, path@)]);
    invocation(args, "Failed to run rclone mkdir", None)
}

/// The removal of `path` on the remote: of the one file, or, for a directory,
/// of the directory with all that it holds.
pub fn delete(remote: &str, path: &str, is_dir: bool) -> (command: Invocation)
    ensures
        command@ == (InvocationView {
            args: seq![
                if is_dir {
                    "purge"@
                } else {
                    "deletefile"@
                },
                remote_path_of(remote@, path@),
            ],
            run_error: if is_dir {
                "Failed to run rclone purge"@
            } else {
                "Failed to run rclone deletefile"@
            },
            parse_error: None,
        }),
{
    let place = remote_path(remote, path);
    let mut args: Vec<String> = Vec::new();
    if is_dir {
        push_text(&mut args, "purge");
        push_text(&mut args, place.as_str());
        assert(texts(args@) =~= seq!["purge"@, remote_path_of(remote@, path@)]);
        invocation(args, "Failed to run rclone purge", None)
    } else {
        push_text(&mut args, "deletefile");
        push_text(&mut args, place.as_str());
        assert(texts(args@) =~= seq!["deletefile"@, remote_path_of(remote@, path@)]);
        invocation(args, "Failed to run rclone deletefile", None)
    }
}

/// The renaming of `old_path` to `new_path`, both on the remote.
pub fn rename(remote: &str, old_path: &str, new_path: &str) -> (command: Invocation)
    ensures
        command@ == (InvocationView {
            args: seq![
                "moveto"@,
                remote_path_of(remote@, old_path@),
                remote_path_of(remote@, new_path@),
            ],
            run_error: "Failed to run rclone moveto"@,
            parse_error: None,
        }),
{
    let old_place = remote_path(remote, old_path);
    let new_place = remote_path(remote, new_path);
    let mut args: Vec<String> = Vec::new();
    push_text(&mut args, "moveto");
    push_text(&mut args, old_place.as_str());
    push_text(&mut args, new_place.as_str());
    assert(texts(args@) =~= seq![
        "moveto"@,
        remote_path_of(remote@, old_path@),
        remote_path_of(remote@, new_path@),
    ]);
    invocation(args, "Failed to run rclone moveto", None)
}

/// The making of a public link to `path` on the remote.
pub fn link(remote: &str, path: &str) -> (command: Invocation)
    ensures
        command@ == (InvocationView {
            args: seq!["link"@, remote_path_of(remote@, path@)],
            run_error: "Failed to run rclone link"@,
            parse_error: None,
        }),
{
    let place = remote_path(remote, path);
    let mut args: Vec<String> = Vec::new();
    push_text(&mut args, "link");
    push_text(&mut args, place.as_str());
    assert(texts(args@) =~= seq!["link"@, remote_path_of(remote@, path@)]);
    invocation(args, "Failed to run rclone link", None)
}

/// The dump of the tool's configuration, as JSON.
pub fn config_dump() -> (command: Invocation)
    ensures
        command@ == (InvocationView {
            args: seq!["config"@, "dump"@, "--json"@],
            run_error: "Failed to run rclone config dump"@,
            parse_error: Some("Failed to parse rclone config dump"@),
        }),
{
    let mut args: Vec<String> = Vec::new();
    push_text(&mut args, "config");
    push_text(&mut args, "dump");
    push_text(&mut args, "--json");
    assert(texts(args@) =~= seq!["config"@, "dump"@, "--json"@]);
    invocation(args, "Failed to run rclone config dump", Some("Failed to parse rclone config dump"))
}

fn push_pairs(args: &mut Vec<String>, params: &Vec<(String, String)>)
    ensures
        texts(final(args)@) == texts(old(args)@) + flattened(pair_texts(params@)),
{
    let mut i: usize = 0;
    assert(pair_texts(params@).take(0) =~= Seq::<(Seq<char>, Seq<char>)>::empty());
    while i < params.len()
        invariant
            i <= params.len(),
            texts(args@) == texts(old(args)@) + flattened(pair_texts(params@).take(i as int)),
        decreases params.len() - i,
    {
        let ghost before = pair_texts(params@).take(i as int);
        let ghost after = pair_texts(params@).take(i + 1);
        push_text(args, params[i].0.as_str());
        push_text(args, params[i].1.as_str());
        proof {
            assert(after.drop_last() =~= before);
            assert(after.last() == (params@[i as int].0@, params@[i as int].1@));
            assert(texts(args@) =~= texts(old(args)@) + flattened(after));
        }
        i = i + 1;
    }
    assert(pair_texts(params@).take(i as int) =~= pair_texts(params@));
}

/// The making of the remote `name`, of the kind `provider`, with the settings
/// `params`, each as its key and then its value, in the order given.
pub fn config_create(name: &str, provider: &str, params: &Vec<(String, String)>) -> (command:
    Invocation)
    ensures
        command@ == (InvocationView {
            args: seq!["config"@, "create"@, name@, provider@] + flattened(pair_texts(params@)),
            run_error: "Failed to run rclone config create"@,
            parse_error: None,
        }),
{
    let mut args: Vec<String> = Vec::new();
    push_text(&mut args, "config");
    push_text(&mut args, "create");
    push_text(&mut args, name);
    push_text(&mut args, provider);
    assert(texts(args@) =~= seq!["config"@, "create"@, name@, provider@]);
    push_pairs(&mut args, params);
    invocation(args, "Failed to run rclone config create", None)
}

/// The change of the settings `params` of the remote `name`, each as its key
/// and then its value, in the order given. Without settings there is nothing to
/// change and nothing to run.
pub fn config_update(name: &str, params: &Vec<(String, String)>) -> (command: Option<Invocation>)
    ensures
        params@.len() == 0 <==> command is None,
        command matches Some(c) ==> c@ == (InvocationView {
            args: seq!["config"@, "update"@, name@] + flattened(pair_texts(params@)),
            run_error: "Failed to run rclone config update"@,
            parse_error: None,
        }),
{
    if params.len() == 0 {
        return None;
    }
    let mut args: Vec<String> = Vec::new();
    push_text(&mut args, "config");
    push_text(&mut args, "update");
    push_text(&mut args, name);
    assert(texts(args@) =~= seq!["config"@, "update"@, name@]);
    push_pairs(&mut args, params);
    Some(invocation(args, "Failed to run rclone config update", None))
}

/// The arguments of the transfer that does `op` from `source` to `dest`, with
/// the caller's `flags`.
pub fn transfer_args(op: &str, source: &str, dest: &str, flags: &Vec<String>) -> (args: Vec<
    String,
>)
    ensures
        texts(args@) == transfer_args_of(op@, source@, dest@, texts(flags@)),
{
    let mut args: Vec<String> = Vec::new();
    push_text(&mut args, op);
    push_text(&mut args, source);
    push_text(&mut args, dest);
    push_text(&mut args, "--use-json-log");
    push_text(&mut args, "--stats");
    push_text(&mut args, "1s");
    push_text(&mut args, "--stats-log-level");
    push_text(&mut args, "NOTICE");
    push_text(&mut args, "--log-format");
    push_text(&mut args, "json");
    assert(texts(args@) =~= seq![
        op@,
        source@,
        dest@,
        "--use-json-log"@,
        "--stats"@,
        "1s"@,
        "--stats-log-level"@,
        "NOTICE"@,
        "--log-format"@,
        "json"@,
    ]);
    push_texts(&mut args, flags);
    args
}

impl Invocation {
    /// What the run of this command comes to: its output, or the error to report.
    pub fn output(&self, run: Result<CommandOutput, String>) -> (result: Result<String, String>)
        ensures
            result_view(result) == output_of(self@.run_error, run_view(run)),
    {
        match run {
            Err(detail) => {
                let mut message = joined(self.run_error.as_str(), ": ");
                message.append(detail.as_str());
                Err(message)
            },
            Ok(output) => {
                if output.success {
                    Ok(output.stdout)
                } else {
                    Err(output.stderr)
                }
            },
        }
    }

    /// What the run of this command comes to, for a command whose output says
    /// nothing: that it is done, or the error to report.
    pub fn completed(&self, run: Result<CommandOutput, String>) -> (result: Result<(), String>)
        ensures
            done_view(result) == (match output_of(self@.run_error, run_view(run)) {
                Ok(_) => Ok::<(), Seq<char>>(()),
                Err(message) => Err::<(), Seq<char>>(message),
            }),
    {
        match self.output(run) {
            Ok(_) => Ok(()),
            Err(message) => Err(message),
        }
    }

    /// The error that says that this command's output could not be parsed, for
    /// the reason given; none for a command whose output is not parsed.
    pub fn parse_failure(&self, detail: &str) -> (message: Option<String>)
        ensures
            text_view(message) == (match self@.parse_error {
                Some(prefix) => Some(prefix + ": "@ + detail@),
                None => None::<Seq<char>>,
            }),
    {
        match &self.parse_error {
            Some(prefix) => {
                let mut message = joined(prefix.as_str(), ": ");
                message.append(detail);
                Some(message)
            },
            None => None,
        }
    }
}

/// The names of the remotes that the tool has listed in `stdout`, one to a
/// line, each with a colon after it.
pub fn remote_names(stdout: &str) -> (names: Vec<String>)
    ensures
        texts(names@) == names_in(lines(stdout@)),
{
    let listed = split_lines(stdout);
    let mut names: Vec<String> = Vec::new();
    let mut i: usize = 0;
    assert(texts(listed@).take(0) =~= Seq::<Seq<char>>::empty());
    while i < listed.len()
        invariant
            i <= listed.len(),
            texts(listed@) == lines(stdout@),
            texts(names@) == names_in(texts(listed@).take(i as int)),
        decreases listed.len() - i,
    {
        let ghost before = texts(listed@).take(i as int);
        let ghost after = texts(listed@).take(i + 1);
        let name = strip_trailing(listed[i].as_str(), ':');
        proof {
            assert(after.drop_last() =~= before);
            assert(after.last() == listed@[i as int]@);
        }
        if !name.is_empty() {
            push_text(&mut names, name);
        }
        i = i + 1;
    }
    assert(texts(listed@).take(i as int) =~= texts(listed@));
    names
}

/// The link that the tool has printed in `stdout`: its output without the white
/// space around it.
pub fn link_text(stdout: &str) -> (link: String)
    ensures
        link@ == trimmed(stdout@),
{
    strip_white_space(stdout).to_owned()
}

} // verus!
