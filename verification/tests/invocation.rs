use codex_cli::invocation::{Invocation, Stdio, API_KEY_VARIABLE};
use codex_cli::settings::{CodexCliSettings, EnvVar, McpServer, DEFAULT_BINARY};

fn strings(items: &[&str]) -> Vec<String> {
    items.iter().map(|item| item.to_string()).collect()
}

fn var(name: &str, value: &str) -> EnvVar {
    EnvVar { name: name.to_string(), value: value.to_string() }
}

#[test]
fn default_settings_run_the_binary_from_the_search_path() {
    let settings = CodexCliSettings::default();
    assert_eq!(DEFAULT_BINARY, "codex");
    assert_eq!(settings.binary_path(), "codex");
    assert!(settings.mcp_servers().is_empty());
}

#[test]
fn invocation_without_servers() {
    let settings = CodexCliSettings::new("/opt/bin/codex".to_string());
    let invocation = Invocation::build("default", &settings, "secret");
    assert_eq!(invocation.program, "/opt/bin/codex");
    assert_eq!(invocation.args, strings(&["exec", "--model", "default"]));
    assert_eq!(API_KEY_VARIABLE, "CODEX_API_KEY");
    assert_eq!(invocation.env, vec![var("CODEX_API_KEY", "secret")]);
    assert_eq!(invocation.stdin, Stdio::Piped);
    assert_eq!(invocation.stdout, Stdio::Piped);
    assert_eq!(invocation.stderr, Stdio::Null);
    assert!(invocation.kill_on_drop);
}

#[test]
fn a_server_with_a_command_only_gives_one_override() {
    let settings = CodexCliSettings::default()
        .with_server("files".to_string(), McpServer::new("npx".to_string(), Vec::new()));
    let invocation = Invocation::build("o3", &settings, "k");
    assert_eq!(
        invocation.args,
        strings(&["exec", "--model", "o3", "--config", "mcp_servers.files.command=\"npx\""])
    );
}

#[test]
fn a_server_with_arguments_and_environment_gives_three_overrides() {
    let server = McpServer::new("npx".to_string(), strings(&["-y", "some server"]))
        .with_env("TOKEN".to_string(), "abc".to_string())
        .with_env("HOME".to_string(), "/tmp/x".to_string());
    let settings = CodexCliSettings::default().with_server("files".to_string(), server);
    let invocation = Invocation::build("default", &settings, "k");
    assert_eq!(
        invocation.args,
        strings(&[
            "exec",
            "--model",
            "default",
            "--config",
            "mcp_servers.files.command=\"npx\"",
            "--config",
            "mcp_servers.files.args=[\"-y\", \"some server\"]",
            "--config",
            "mcp_servers.files.env={ HOME = \"/tmp/x\", TOKEN = \"abc\" }",
        ])
    );
}

#[test]
fn text_is_written_as_toml() {
    let server = McpServer::new("say \"hi\"\\now".to_string(), Vec::new());
    let settings = CodexCliSettings::default().with_server("s".to_string(), server);
    let invocation = Invocation::build("default", &settings, "k");
    assert_eq!(invocation.args.len(), 5);
    let written = &invocation.args[4];
    let value = written.strip_prefix("mcp_servers.s.command=").unwrap();
    assert_ne!(value, "say \"hi\"\\now");
    let document = format!("command = {}", value);
    let parsed: toml::Value = toml::from_str(&document).unwrap();
    assert_eq!(parsed.get("command").and_then(|v| v.as_str()), Some("say \"hi\"\\now"));
}

#[test]
fn servers_keep_the_order_in_which_they_were_set() {
    let settings = CodexCliSettings::default()
        .with_server("b".to_string(), McpServer::new("one".to_string(), Vec::new()))
        .with_server("a".to_string(), McpServer::new("two".to_string(), Vec::new()));
    let invocation = Invocation::build("default", &settings, "k");
    assert_eq!(
        invocation.args,
        strings(&[
            "exec",
            "--model",
            "default",
            "--config",
            "mcp_servers.b.command=\"one\"",
            "--config",
            "mcp_servers.a.command=\"two\"",
        ])
    );
}

#[test]
fn setting_a_server_again_replaces_it_in_its_place() {
    let settings = CodexCliSettings::default()
        .with_server("b".to_string(), McpServer::new("one".to_string(), Vec::new()))
        .with_server("a".to_string(), McpServer::new("two".to_string(), Vec::new()))
        .with_server("b".to_string(), McpServer::new("three".to_string(), strings(&["x"])));
    let servers = settings.mcp_servers();
    assert_eq!(servers.len(), 2);
    assert_eq!(servers[0].name, "b");
    assert_eq!(servers[0].server.command(), "three");
    assert_eq!(servers[0].server.args(), &strings(&["x"]));
    assert_eq!(servers[1].name, "a");
    assert_eq!(servers[1].server.command(), "two");
}

#[test]
fn setting_a_variable_again_replaces_it_in_its_place() {
    let server = McpServer::new("cmd".to_string(), Vec::new())
        .with_env("A".to_string(), "1".to_string())
        .with_env("B".to_string(), "2".to_string())
        .with_env("A".to_string(), "3".to_string());
    assert_eq!(server.env(), &vec![var("A", "3"), var("B", "2")]);
    assert_eq!(server.command(), "cmd");
    assert!(server.args().is_empty());
}

#[test]
fn a_new_server_has_no_environment() {
    let server = McpServer::new("cmd".to_string(), strings(&["a", "b"]));
    assert!(server.env().is_empty());
    assert_eq!(server.args(), &strings(&["a", "b"]));
}
