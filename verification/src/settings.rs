//! The settings of the provider: which binary to run, and the auxiliary
//! servers that it is told about.

use vstd::prelude::*;
use crate::keyed::{distinct_keys, lemma_with_entry_found, lemma_with_entry_missing, with_entry};

verus! {

/// The characters of each text of a list.
pub open spec fn texts_of(items: Seq<String>) -> Seq<Seq<char>> {
    items.map_values(|item: String| item@)
}

/// One environment variable: a name and its value.
#[derive(Debug, PartialEq, Eq)]
pub struct EnvVar {
    pub name: String,
    pub value: String,
}

impl View for EnvVar {
    type V = (Seq<char>, Seq<char>);

    open spec fn view(&self) -> (Seq<char>, Seq<char>) {
        (self.name@, self.value@)
    }
}

/// The name and value of each variable of a list.
pub open spec fn vars_of(vars: Seq<EnvVar>) -> Seq<(Seq<char>, Seq<char>)> {
    vars.map_values(|var: EnvVar| var@)
}

/// An auxiliary server: how to launch it.
#[derive(Debug, PartialEq, Eq)]
pub struct McpServer {
    command: String,
    args: Vec<String>,
    env: Vec<EnvVar>,
}

/// What a server definition holds: the launch command, its arguments in
/// order, and its environment as a list of names with their values.
pub struct McpServerView {
    pub command: Seq<char>,
    pub args: Seq<Seq<char>>,
    pub env: Seq<(Seq<char>, Seq<char>)>,
}

impl View for McpServer {
    type V = McpServerView;

    closed spec fn view(&self) -> McpServerView {
        McpServerView {
            command: self.command@,
            args: texts_of(self.args@),
            env: vars_of(self.env@),
        }
    }
}

impl McpServer {
    #[verifier::type_invariant]
    spec fn env_is_a_mapping(&self) -> bool {
        distinct_keys(vars_of(self.env@))
    }

    /// A server with an empty environment.
    pub fn new(command: String, args: Vec<String>) -> (server: McpServer)
        ensures
            server@ == (McpServerView {
                command: command@,
                args: texts_of(args@),
                env: Seq::empty(),
            }),
    {
        let server = McpServer { command, args, env: Vec::new() };
        assert(vars_of(server.env@) =~= Seq::empty());
        server
    }

    /// The command that launches the server.
    pub fn command(&self) -> (command: &String)
        ensures
            command@ == self@.command,
    {
        &self.command
    }

    /// The arguments of the command, in order.
    pub fn args(&self) -> (args: &Vec<String>)
        ensures
            texts_of(args@) == self@.args,
    {
        &self.args
    }

    /// The environment of the server. No name occurs twice in it.
    pub fn env(&self) -> (env: &Vec<EnvVar>)
        ensures
            vars_of(env@) == self@.env,
            distinct_keys(self@.env),
    {
        proof {
            use_type_invariant(self);
        }
        &self.env
    }

    /// The server with the variable `name` of its environment set to `value`.
    #[verifier::loop_isolation(false)]
    pub fn with_env(self, name: String, value: String) -> (server: McpServer)
        ensures
            server@ == (McpServerView { env: with_entry(self@.env, name@, value@), ..self@ }),
    {
        proof {
            use_type_invariant(&self);
        }
        let McpServer { command, args, env } = self;
        let mut env = env;
        let ghost before = vars_of(env@);
        let mut i: usize = 0;
        while i < env.len()
            invariant
                0 <= i <= env.len(),
                vars_of(env@) == before,
                forall|k: int| 0 <= k < i ==> before[k].0 != name@,
            decreases env.len() - i,
        {
            if env[i].name == name {
                proof {
                    lemma_with_entry_found(before, name@, value@, i as int);
                }
                env.set(i, EnvVar { name, value });
                assert(vars_of(env@) =~= before.update(i as int, (name@, value@)));
                return McpServer { command, args, env };
            }
            i += 1;
        }
        proof {
            lemma_with_entry_missing(before, name@, value@);
        }
        env.push(EnvVar { name, value });
        assert(vars_of(env@) =~= before.push((name@, value@)));
        McpServer { command, args, env }
    }
}

/// A server under the name by which the settings know it.
#[derive(Debug, PartialEq, Eq)]
pub struct McpServerEntry {
    pub name: String,
    pub server: McpServer,
}

impl View for McpServerEntry {
    type V = (Seq<char>, McpServerView);

    open spec fn view(&self) -> (Seq<char>, McpServerView) {
        (self.name@, self.server@)
    }
}

/// The name and definition of each server of a list.
pub open spec fn servers_of(entries: Seq<McpServerEntry>) -> Seq<(Seq<char>, McpServerView)> {
    entries.map_values(|entry: McpServerEntry| entry@)
}

/// The binary that is run where the settings name none: it is looked up on
/// the search path.
pub const DEFAULT_BINARY: &'static str = "codex";

/// The settings of the provider.
#[derive(Debug, PartialEq, Eq)]
pub struct CodexCliSettings {
    binary_path: String,
    mcp_servers: Vec<McpServerEntry>,
}

/// What the settings hold: the path of the binary, and the auxiliary servers
/// as a list of names with their definitions.
pub struct CodexCliSettingsView {
    pub binary_path: Seq<char>,
    pub mcp_servers: Seq<(Seq<char>, McpServerView)>,
}

impl View for CodexCliSettings {
    type V = CodexCliSettingsView;

    closed spec fn view(&self) -> CodexCliSettingsView {
        CodexCliSettingsView {
            binary_path: self.binary_path@,
            mcp_servers: servers_of(self.mcp_servers@),
        }
    }
}

impl CodexCliSettings {
    #[verifier::type_invariant]
    spec fn servers_are_a_mapping(&self) -> bool {
        distinct_keys(servers_of(self.mcp_servers@))
    }

    /// Settings that run `binary_path` and know no auxiliary server.
    pub fn new(binary_path: String) -> (settings: CodexCliSettings)
        ensures
            settings@ == (CodexCliSettingsView {
                binary_path: binary_path@,
                mcp_servers: Seq::empty(),
            }),
    {
        let settings = CodexCliSettings { binary_path, mcp_servers: Vec::new() };
        assert(servers_of(settings.mcp_servers@) =~= Seq::empty());
        settings
    }

    /// The path or name of the binary to run.
    pub fn binary_path(&self) -> (path: &String)
        ensures
            path@ == self@.binary_path,
    {
        &self.binary_path
    }

    /// The auxiliary servers. No name occurs twice among them.
    pub fn mcp_servers(&self) -> (servers: &Vec<McpServerEntry>)
        ensures
            servers_of(servers@) == self@.mcp_servers,
            distinct_keys(self@.mcp_servers),
    {
        proof {
            use_type_invariant(self);
        }
        &self.mcp_servers
    }

    /// The settings with the server `name` set to `server`.
    #[verifier::loop_isolation(false)]
    pub fn with_server(self, name: String, server: McpServer) -> (settings: CodexCliSettings)
        ensures
            settings@ == (CodexCliSettingsView {
                mcp_servers: with_entry(self@.mcp_servers, name@, server@),
                ..self@
            }),
    {
        proof {
            use_type_invariant(&self);
        }
        let CodexCliSettings { binary_path, mcp_servers } = self;
        let mut servers = mcp_servers;
        let ghost before = servers_of(servers@);
        let mut i: usize = 0;
        while i < servers.len()
            invariant
                0 <= i <= servers.len(),
                servers_of(servers@) == before,
                forall|k: int| 0 <= k < i ==> before[k].0 != name@,
            decreases servers.len() - i,
        {
            if servers[i].name == name {
                proof {
                    lemma_with_entry_found(before, name@, server@, i as int);
                }
                servers.set(i, McpServerEntry { name, server });
                assert(servers_of(servers@) =~= before.update(i as int, (name@, server@)));
                return CodexCliSettings { binary_path, mcp_servers: servers };
            }
            i += 1;
        }
        proof {
            lemma_with_entry_missing(before, name@, server@);
        }
        servers.push(McpServerEntry { name, server });
        assert(servers_of(servers@) =~= before.push((name@, server@)));
        CodexCliSettings { binary_path, mcp_servers: servers }
    }
}

impl Default for CodexCliSettings {
    /// The settings that run `codex` from the search path.
    fn default() -> (settings: CodexCliSettings)
        ensures
            settings@ == (CodexCliSettingsView {
                binary_path: DEFAULT_BINARY@,
                mcp_servers: Seq::empty(),
            }),
    {
        CodexCliSettings::new(DEFAULT_BINARY.to_owned())
    }
}

} // verus!
