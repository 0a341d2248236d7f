use kiro_generator::agent::custom_tool::resolve_timeout;
use kiro_generator::agent::{tool_default_timeout, CustomToolConfig, TransportType};
use kiro_generator::config::mcp::{
    Command, CustomToolConfigKdl, Disabled, KeyValueDoc, OAuthConfig, RedirectUri, Timeout,
    ToolArgs, Url,
};

fn pair(key: &str, value: &str) -> KeyValueDoc {
    KeyValueDoc { key: key.to_string(), value: value.to_string() }
}

#[test]
fn convert_to_custom_tool_config() {
    let mut doc = CustomToolConfigKdl::new("test");
    doc.command = Some(Command { value: "test-cmd".to_string() });
    doc.timeout = Some(Timeout { value: 5000 });
    doc.disabled = Some(Disabled { value: true });
    let config = CustomToolConfig::from_kdl(&doc);

    assert_eq!(config.command, "test-cmd");
    assert_eq!(config.timeout, 5000);
    assert!(config.disabled);
}

#[test]
fn default_timeout_when_zero() {
    let mut doc = CustomToolConfigKdl::new("test");
    doc.command = Some(Command { value: "test-cmd".to_string() });
    doc.timeout = Some(Timeout { value: 0 });
    let config = CustomToolConfig::from_kdl(&doc);

    assert_eq!(config.timeout, tool_default_timeout());
}

#[test]
fn default_timeout_when_not_declared() {
    let doc = CustomToolConfigKdl::new("test");
    let config = CustomToolConfig::from_kdl(&doc);
    assert_eq!(config.timeout, 120000);
    assert!(!config.disabled);
    assert_eq!(config.command, "");
    assert_eq!(config.url, "");
    assert!(config.args.is_empty());
    assert!(config.oauth.is_none());
}

#[test]
fn timeout_formula() {
    assert_eq!(resolve_timeout(0), 120000);
    assert_eq!(resolve_timeout(1), 1);
    assert_eq!(resolve_timeout(5000), 5000);
    assert_eq!(resolve_timeout(u64::MAX), u64::MAX);
}

#[test]
fn transport_follows_the_command() {
    let mut local = CustomToolConfigKdl::new("local");
    local.command = Some(Command { value: "run-me".to_string() });
    assert_eq!(CustomToolConfig::from_kdl(&local).transport, TransportType::Stdio);

    let mut remote = CustomToolConfigKdl::new("remote");
    remote.url = Some(Url { value: "http://localhost:8080".to_string() });
    let config = CustomToolConfig::from_kdl(&remote);
    assert_eq!(config.transport, TransportType::Http);
    assert_eq!(config.url, "http://localhost:8080");
}

#[test]
fn environment_and_headers_become_maps() {
    let mut doc = CustomToolConfigKdl::new("api");
    doc.command = Some(Command { value: "api-server".to_string() });
    doc.env = vec![pair("API_KEY", "secret123"), pair("DEBUG", "true"), pair("DEBUG", "false")];
    doc.header = vec![pair("Authorization", "Bearer token"), pair("Content-Type", "application/json")];
    doc.args = Some(ToolArgs { args: vec!["--verbose".to_string(), "--output".to_string()] });
    doc.oauth = Some(OAuthConfig { redirect_uri: RedirectUri { value: "127.0.0.1:7778".to_string() } });
    let config = CustomToolConfig::from_kdl(&doc);
    assert_eq!(config.env.len(), 2);
    assert_eq!(config.env.get("API_KEY"), Some(&"secret123".to_string()));
    assert_eq!(config.env.get("DEBUG"), Some(&"false".to_string()));
    assert_eq!(config.env.key_at(1), "DEBUG");
    assert_eq!(config.headers.len(), 2);
    assert_eq!(config.args, vec!["--verbose", "--output"]);
    assert_eq!(config.oauth.unwrap().redirect_uri, Some("127.0.0.1:7778".to_string()));
}

#[test]
fn resolved_keeps_everything_but_a_zero_timeout() {
    let mut doc = CustomToolConfigKdl::new("x");
    doc.command = Some(Command { value: "cmd".to_string() });
    let mut config = CustomToolConfig::from_kdl(&doc);
    config.timeout = 0;
    let resolved = config.resolved();
    assert_eq!(resolved.timeout, 120000);
    assert_eq!(resolved.command, "cmd");
    config.timeout = 77;
    assert_eq!(config.resolved(), config);
}
