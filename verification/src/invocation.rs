//! The invocation builder: the command line and environment of the child
//! process for one call. It describes the process; it does not start it.

use vstd::prelude::*;
use vstd::string::*;
use crate::settings::{servers_of, texts_of, vars_of, CodexCliSettings, CodexCliSettingsView, EnvVar, McpServer, McpServerView};
use crate::toml_text::{toml_literal, write_literal, TomlLiteral, TomlLiteralView};

verus! {

/// What a standard stream of the child is connected to.
#[derive(Clone, Copy, Debug, PartialEq, Eq)]
pub enum Stdio {
    /// A pipe to the caller.
    Piped,
    /// Nothing: what is written is discarded.
    Null,
}

/// The description of a child process to start.
#[derive(Debug, PartialEq, Eq)]
pub struct Invocation {
    /// The path or name of the binary.
    pub program: String,
    /// The arguments, in order.
    pub args: Vec<String>,
    /// The variables added to the environment of the child.
    pub env: Vec<EnvVar>,
    pub stdin: Stdio,
    pub stdout: Stdio,
    pub stderr: Stdio,
    /// Whether the child is killed when its handle is dropped.
    pub kill_on_drop: bool,
}

/// What an invocation holds.
pub struct InvocationView {
    pub program: Seq<char>,
    pub args: Seq<Seq<char>>,
    pub env: Seq<(Seq<char>, Seq<char>)>,
    pub stdin: Stdio,
    pub stdout: Stdio,
    pub stderr: Stdio,
    pub kill_on_drop: bool,
}

impl View for Invocation {
    type V = InvocationView;

    open spec fn view(&self) -> InvocationView {
        InvocationView {
            program: self.program@,
            args: texts_of(self.args@),
            env: vars_of(self.env@),
            stdin: self.stdin,
            stdout: self.stdout,
            stderr: self.stderr,
            kill_on_drop: self.kill_on_drop,
        }
    }
}

/// The name of the environment variable that carries the secret.
pub const API_KEY_VARIABLE: &'static str = "CODEX_API_KEY";

/// A configuration override: `mcp_servers.<name>.<field>=<value>`, the value
/// written as TOML.
pub open spec fn override_text(name: Seq<char>, field: Seq<char>, value: TomlLiteralView) -> Seq<
    char,
> {
    "mcp_servers."@ + name + "."@ + field + "="@ + toml_literal(value)
}

/// The arguments that tell the child of one auxiliary server: its command,
/// its arguments where it has any, and its environment where it has any,
/// each as a `--config` override.
pub open spec fn server_args(name: Seq<char>, server: McpServerView) -> Seq<Seq<char>> {
    seq!["--config"@, override_text(name, "command"@, TomlLiteralView::Text(server.command))] + (
    if server.args.len() > 0 {
        seq!["--config"@, override_text(name, "args"@, TomlLiteralView::List(server.args))]
    } else {
        Seq::empty()
    }) + (if server.env.len() > 0 {
        seq!["--config"@, override_text(name, "env"@, TomlLiteralView::Table(server.env))]
    } else {
        Seq::empty()
    })
}

/// The arguments for a list of auxiliary servers: those of each, in order.
pub open spec fn servers_args(servers: Seq<(Seq<char>, McpServerView)>) -> Seq<Seq<char>>
    decreases servers.len(),
{
    if servers.len() == 0 {
        Seq::empty()
    } else {
        servers_args(servers.drop_last()) + server_args(servers.last().0, servers.last().1)
    }
}

/// The invocation for a call of `model` under `settings`, authorized by
/// `api_key`.
///
/// The binary is run with the subcommand `exec` and the model, followed by
/// the overrides for the auxiliary servers. The secret goes into the
/// environment. Input and output are pipes, the error stream is discarded,
/// and the child does not outlive its handle.
pub open spec fn invocation_of(
    model: Seq<char>,
    settings: CodexCliSettingsView,
    api_key: Seq<char>,
) -> InvocationView {
    InvocationView {
        program: settings.binary_path,
        args: seq!["exec"@, "--model"@, model] + servers_args(settings.mcp_servers),
        env: seq![(API_KEY_VARIABLE@, api_key)],
        stdin: Stdio::Piped,
        stdout: Stdio::Piped,
        stderr: Stdio::Null,
        kill_on_drop: true,
    }
}

/// The texts of a list with one more text are those of the list with the
/// characters of that text at the end.
proof fn lemma_texts_of_push(items: Seq<String>, item: String)
    ensures
        texts_of(items.push(item)) == texts_of(items).push(item@),
{
    assert(texts_of(items.push(item)) =~= texts_of(items).push(item@));
}

/// Writes one configuration override.
fn write_override(name: &str, field: &str, value: &TomlLiteral<'_>) -> (text: String)
    ensures
        text@ == override_text(name@, field@, value@),
{
    let mut text = "mcp_servers.".to_owned();
    text.append(name);
    text.append(".");
    text.append(field);
    text.append("=");
    let literal = write_literal(value);
    text.append(literal.as_str());
    text
}

/// Appends a `--config` override to the arguments.
fn push_override(args: &mut Vec<String>, name: &str, field: &str, value: &TomlLiteral<'_>)
    ensures
        texts_of(final(args)@) == texts_of(old(args)@) + seq![
            "--config"@,
            override_text(name@, field@, value@),
        ],
{
    let flag = "--config".to_owned();
    let text = write_override(name, field, value);
    proof {
        lemma_texts_of_push(args@, flag);
        lemma_texts_of_push(args@.push(flag), text);
    }
    args.push(flag);
    args.push(text);
    assert(texts_of(args@) =~= texts_of(old(args)@) + seq!["--config"@, text@]);
}

/// Appends the arguments that tell the child of one auxiliary server.
fn push_server(args: &mut Vec<String>, name: &str, server: &McpServer)
    ensures
        texts_of(final(args)@) == texts_of(old(args)@) + server_args(name@, server@),
{
    push_override(args, name, "command", &TomlLiteral::Text(server.command().as_str()));
    let server_arguments = server.args();
    if !server_arguments.is_empty() {
        push_override(args, name, "args", &TomlLiteral::List(server_arguments));
    }
    let server_env = server.env();
    if !server_env.is_empty() {
        push_override(args, name, "env", &TomlLiteral::Table(server_env));
    }
    proof {
        assert(texts_of(server_arguments@).len() == server_arguments@.len());
        assert(vars_of(server_env@).len() == server_env@.len());
        assert(texts_of(args@) =~= texts_of(old(args)@) + server_args(name@, server@));
    }
}

impl Invocation {
    /// Describes the child process for a call of `model_name` under
    /// `settings`, authorized by `api_key`.
    pub fn build(model_name: &str, settings: &CodexCliSettings, api_key: &str) -> (invocation:
        Invocation)
        ensures
            invocation@ == invocation_of(model_name@, settings@, api_key@),
    {
        let mut args: Vec<String> = Vec::new();
        let subcommand = "exec".to_owned();
        let flag = "--model".to_owned();
        let model = model_name.to_owned();
        proof {
            lemma_texts_of_push(args@, subcommand);
            lemma_texts_of_push(args@.push(subcommand), flag);
            lemma_texts_of_push(args@.push(subcommand).push(flag), model);
        }
        args.push(subcommand);
        args.push(flag);
        args.push(model);
        assert(texts_of(args@) =~= seq!["exec"@, "--model"@, model_name@]);

        let servers = settings.mcp_servers();
        let mut i: usize = 0;
        while i < servers.len()
            invariant
                0 <= i <= servers.len(),
                texts_of(args@) == seq!["exec"@, "--model"@, model_name@] + servers_args(
                    servers_of(servers@).take(i as int),
                ),
            decreases servers.len() - i,
        {
            let entry = &servers[i];
            let ghost before = texts_of(args@);
            push_server(&mut args, entry.name.as_str(), &entry.server);
            proof {
                let upto = servers_of(servers@).take(i + 1);
                assert(upto.drop_last() =~= servers_of(servers@).take(i as int));
                assert(upto.last() == entry@);
                assert(texts_of(args@) =~= seq!["exec"@, "--model"@, model_name@] + servers_args(
                    upto,
                ));
            }
            i += 1;
        }
        assert(servers_of(servers@).take(i as int) =~= servers_of(servers@));

        let mut env: Vec<EnvVar> = Vec::new();
        env.push(EnvVar { name: API_KEY_VARIABLE.to_owned(), value: api_key.to_owned() });
        assert(vars_of(env@) =~= seq![(API_KEY_VARIABLE@, api_key@)]);

        Invocation {
            program: settings.binary_path().clone(),
            args,
            env,
            stdin: Stdio::Piped,
            stdout: Stdio::Piped,
            stderr: Stdio::Null,
            kill_on_drop: true,
        }
    }
}

} // verus!
