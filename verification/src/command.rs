//! The command that starts the language server.

use vstd::prelude::*;
use vstd::string::StringExecFns;
use crate::text::{copy_strings, string_views};

verus! {

broadcast use vstd::string::group_string_axioms;

/// The one language server that this extension starts.
pub const LANGUAGE_SERVER_ID: &'static str = "css_variables";

/// Directories put in front of `PATH`: where Homebrew and npm install
/// binaries, which an editor started from the desktop does not have there.
pub const EXTRA_SEARCH_PATH: &'static str = "/opt/homebrew/bin:/usr/local/bin";

/// The shell that runs a server found on the search path.
pub const SHELL: &'static str = "/bin/sh";

/// What the user is told when no server is on the search path.
pub const SERVER_NOT_FOUND: &'static str =
    "css-variables-language-server not found in PATH. Install it with: npm i -g css-variables-language-server";

/// A program to run: the executable, its arguments, and its environment.
#[derive(Clone, Debug, PartialEq, Eq)]
pub struct Command {
    pub command: String,
    pub args: Vec<String>,
    pub env: Vec<(String, String)>,
}

/// The mathematical value of a `Command`.
pub struct CommandView {
    pub command: Seq<char>,
    pub args: Seq<Seq<char>>,
    pub env: Seq<(Seq<char>, Seq<char>)>,
}

/// The views of a list of environment variables.
pub open spec fn env_views(env: Seq<(String, String)>) -> Seq<(Seq<char>, Seq<char>)> {
    env.map_values(|kv: (String, String)| (kv.0@, kv.1@))
}

impl View for Command {
    type V = CommandView;

    open spec fn view(&self) -> CommandView {
        CommandView {
            command: self.command@,
            args: string_views(self.args@),
            env: env_views(self.env@),
        }
    }
}

/// Position of the first variable called `key`.
pub open spec fn first_key(env: Seq<(Seq<char>, Seq<char>)>, key: Seq<char>) -> Option<int>
    decreases env.len(),
{
    if env.len() == 0 {
        None
    } else if env[0].0 == key {
        Some(0)
    } else {
        match first_key(env.drop_first(), key) {
            Some(i) => Some(i + 1),
            None => None,
        }
    }
}

/// `env` with `EXTRA_SEARCH_PATH` in front of the value of its first `PATH`
/// variable; where it has no `PATH`, with `PATH` added at the end, set to
/// `EXTRA_SEARCH_PATH`.
pub open spec fn with_search_path(env: Seq<(Seq<char>, Seq<char>)>) -> Seq<
    (Seq<char>, Seq<char>),
> {
    match first_key(env, "PATH"@) {
        Some(i) => env.update(i, ("PATH"@, EXTRA_SEARCH_PATH@ + ":"@ + env[i].1)),
        None => env.push(("PATH"@, EXTRA_SEARCH_PATH@)),
    }
}

/// `first_key` finds the least position that holds the key, and finds one
/// whenever the key occurs.
pub proof fn lemma_first_key(env: Seq<(Seq<char>, Seq<char>)>, key: Seq<char>)
    ensures
        match first_key(env, key) {
            Some(i) => 0 <= i < env.len() && env[i].0 == key && forall|j: int|
                0 <= j < i ==> env[j].0 != key,
            None => forall|j: int| 0 <= j < env.len() ==> env[j].0 != key,
        },
    decreases env.len(),
{
    if env.len() > 0 && env[0].0 != key {
        let rest = env.drop_first();
        lemma_first_key(rest, key);
        match first_key(rest, key) {
            Some(i) => {
                assert forall|j: int| 0 <= j < i + 1 implies env[j].0 != key by {
                    if j > 0 {
                        assert(env[j] == rest[j - 1]);
                    }
                }
            },
            None => {
                assert forall|j: int| 0 <= j < env.len() implies env[j].0 != key by {
                    if j > 0 {
                        assert(env[j] == rest[j - 1]);
                    }
                }
            },
        }
    }
}

/// The environment for the server: `env` with the extra directories on its
/// search path.
pub fn augment_path(env: &Vec<(String, String)>) -> (out: Vec<(String, String)>)
    ensures
        env_views(out@) == with_search_path(env_views(env@)),
{
    let ghost all = env_views(env@);
    let path_key = String::from_str("PATH");
    let mut out: Vec<(String, String)> = Vec::new();
    let mut i: usize = 0;
    let mut seen = false;
    assert(env_views(out@) =~= all.take(0));
    while i < env.len()
        invariant
            i <= env.len(),
            all == env_views(env@),
            path_key@ == "PATH"@,
            seen == (first_key(all.take(i as int), "PATH"@) is Some),
            env_views(out@) == if seen {
                with_search_path(all.take(i as int))
            } else {
                all.take(i as int)
            },
        decreases env.len() - i,
    {
        let ghost before = env_views(out@);
        let ghost head = all.take(i as int);
        let ghost next = all.take(i + 1);
        let key = env[i].0.clone();
        assert(all[i as int] == (env@[i as int].0@, env@[i as int].1@));
        proof {
            lemma_first_key(head, "PATH"@);
            lemma_first_key(next, "PATH"@);
            assert(next =~= head.push(all[i as int]));
            assert forall|j: int| 0 <= j < head.len() implies head[j] == next[j] by {}
        }
        if !seen && key == path_key {
            let mut value = String::from_str(EXTRA_SEARCH_PATH);
            value.append(":");
            value.append(env[i].1.as_str());
            out.push((key, value));
            seen = true;
            proof {
                assert(next[i as int].0 == "PATH"@);
                match first_key(next, "PATH"@) {
                    Some(k) => {
                        if k < i {
                            assert(head[k].0 != "PATH"@);
                            assert(head[k] == next[k]);
                        }
                    },
                    None => {},
                }
                assert(first_key(next, "PATH"@) == Some(i as int));
                assert(env_views(out@) =~= before.push(
                    ("PATH"@, EXTRA_SEARCH_PATH@ + ":"@ + all[i as int].1),
                ));
                assert(env_views(out@) =~= with_search_path(next));
            }
        } else {
            out.push((key, env[i].1.clone()));
            proof {
                assert(env_views(out@) =~= before.push(all[i as int]));
                if seen {
                    let k = first_key(head, "PATH"@)->0;
                    assert(first_key(next, "PATH"@) == Some(k));
                    assert(env_views(out@) =~= with_search_path(next));
                } else {
                    assert(first_key(next, "PATH"@) is None);
                    assert(env_views(out@) =~= next);
                }
            }
        }
        i += 1;
    }
    assert(all.take(env.len() as int) =~= all);
    if !seen {
        let ghost before = env_views(out@);
        out.push((path_key, String::from_str(EXTRA_SEARCH_PATH)));
        assert(env_views(out@) =~= before.push(("PATH"@, EXTRA_SEARCH_PATH@)));
    }
    out
}

/// The command that runs the binary at `path` directly.
pub open spec fn invocation_of(
    path: Seq<char>,
    args: Seq<Seq<char>>,
    env: Seq<(Seq<char>, Seq<char>)>,
) -> CommandView {
    CommandView { command: path, args, env: with_search_path(env) }
}

/// The command that runs the binary at `path` with `args`, in the
/// environment `env` with the extra directories on its search path.
pub fn invocation(path: &str, args: &Vec<String>, env: &Vec<(String, String)>) -> (command:
    Command)
    ensures
        command@ == invocation_of(path@, string_views(args@), env_views(env@)),
{
    Command { command: String::from_str(path), args: copy_strings(args), env: augment_path(env) }
}

/// The arguments as they are written in a shell script: each after a space
/// and between double quotes.
pub open spec fn quoted_args(args: Seq<Seq<char>>) -> Seq<char>
    decreases args.len(),
{
    if args.len() == 0 {
        Seq::empty()
    } else {
        quoted_args(args.drop_last()) + " \""@ + args.last() + "\""@
    }
}

/// The shell script that runs the server at `path` over standard input and
/// output, with `args` after the flag that selects them, and appends what the
/// server writes to standard error to a log file.
pub open spec fn shell_script_of(path: Seq<char>, args: Seq<Seq<char>>) -> Seq<char> {
    "\""@ + path + "\" --stdio"@ + quoted_args(args) + " 2>>\"/tmp/css-variables-lsp.log\""@
}

/// What `build_css_variables_command` returns.
pub open spec fn css_variables_command_of(
    server_path: Option<Seq<char>>,
    args: Seq<Seq<char>>,
    env: Seq<(Seq<char>, Seq<char>)>,
) -> Result<CommandView, Seq<char>> {
    match server_path {
        Some(path) => Ok(
            CommandView {
                command: SHELL@,
                args: seq!["-lc"@, shell_script_of(path, args)],
                env: with_search_path(env),
            },
        ),
        None => Err(SERVER_NOT_FOUND@),
    }
}

/// The view of an optional string slice.
pub open spec fn opt_str_view(s: Option<&str>) -> Option<Seq<char>> {
    match s {
        Some(s) => Some(s@),
        None => None,
    }
}

/// The command for a server installed on the search path, where
/// `server_path` is what the lookup of the server's name gave.
///
/// The server runs inside a login shell, which keeps its standard error out
/// of the protocol stream and in a log file. Without a server the result is
/// the message that says how to install one.
pub fn build_css_variables_command(
    server_path: Option<&str>,
    extra_args: &Vec<String>,
    env: &Vec<(String, String)>,
) -> (r: Result<Command, String>)
    ensures
        match r {
            Ok(command) => css_variables_command_of(
                opt_str_view(server_path),
                string_views(extra_args@),
                env_views(env@),
            ) == Ok::<CommandView, Seq<char>>(command@),
            Err(message) => css_variables_command_of(
                opt_str_view(server_path),
                string_views(extra_args@),
                env_views(env@),
            ) == Err::<CommandView, Seq<char>>(message@),
        },
{
    let path = match server_path {
        Some(p) => p,
        None => {
            return Err(String::from_str(SERVER_NOT_FOUND));
        },
    };
    let ghost all = string_views(extra_args@);
    let mut script = String::from_str("\"");
    script.append(path);
    script.append("\" --stdio");
    let mut i: usize = 0;
    assert(all.take(0) =~= Seq::<Seq<char>>::empty());
    assert(script@ =~= "\""@ + path@ + "\" --stdio"@ + quoted_args(all.take(0)));
    while i < extra_args.len()
        invariant
            i <= extra_args.len(),
            all == string_views(extra_args@),
            script@ == "\""@ + path@ + "\" --stdio"@ + quoted_args(all.take(i as int)),
        decreases extra_args.len() - i,
    {
        proof {
            assert(all.take(i + 1).drop_last() =~= all.take(i as int));
            assert(all.take(i + 1).last() == extra_args@[i as int]@);
        }
        script.append(" \"");
        script.append(extra_args[i].as_str());
        script.append("\"");
        i += 1;
        assert(script@ =~= "\""@ + path@ + "\" --stdio"@ + quoted_args(all.take(i as int)));
    }
    assert(all.take(extra_args.len() as int) =~= all);
    script.append(" 2>>\"/tmp/css-variables-lsp.log\"");
    let mut args: Vec<String> = Vec::new();
    args.push(String::from_str("-lc"));
    args.push(script);
    assert(string_views(args@) =~= seq!["-lc"@, shell_script_of(path@, all)]);
    Ok(Command { command: String::from_str(SHELL), args, env: augment_path(env) })
}

/// What `check_language_server_id` returns.
pub open spec fn language_server_id_check(id: Seq<char>) -> Result<(), Seq<char>> {
    if id == LANGUAGE_SERVER_ID@ {
        Ok(())
    } else {
        Err("Unknown language server id: "@ + id)
    }
}

/// Accepts the id of the language server that this extension starts, and
/// names any other id in the error.
pub fn check_language_server_id(id: &str) -> (r: Result<(), String>)
    ensures
        match r {
            Ok(_) => language_server_id_check(id@) is Ok,
            Err(message) => language_server_id_check(id@) == Err::<(), Seq<char>>(message@),
        },
{
    if String::from_str(id) == String::from_str(LANGUAGE_SERVER_ID) {
        Ok(())
    } else {
        let mut message = String::from_str("Unknown language server id: ");
        message.append(id);
        Err(message)
    }
}

} // verus!
