use kiro_generator::agent::HookTrigger;
use kiro_generator::config::agent::{
    AllowedTools, Description, Inherits, Prompt, Resource, ToolAliasKdl, Tools,
};
use kiro_generator::config::hook::{HookDoc, HookEntryDoc};
use kiro_generator::config::mcp::{
    Command, CustomToolConfigKdl, KeyValueDoc, OAuthConfig, RedirectUri, Timeout, ToolArgs,
};
use kiro_generator::config::native::{GenericListItem, NativeToolsDoc, PermissionDoc};
use kiro_generator::config::{
    GeneratorConfig, GeneratorConfigDoc, KdlAgent, KdlAgentDoc, KdlAgentFileDoc,
    KdlAgentFileSource,
};

fn item(text: &str) -> GenericListItem {
    GenericListItem { item: text.to_string() }
}

fn hook(name: &str, command: &str) -> HookEntryDoc {
    HookEntryDoc { name: name.to_string(), command: command.to_string(), ..HookEntryDoc::default() }
}

fn hooks() -> HookDoc {
    HookDoc {
        agent_spawn: vec![HookEntryDoc {
            name: "spawn".to_string(),
            command: "echo i have spawned".to_string(),
            timeout_ms: 1000,
            max_output_size: 9000,
            cache_ttl_seconds: 2,
            matcher: None,
        }],
        user_prompt_submit: vec![hook("submit", "echo user submitted")],
        pre_tool_use: vec![HookEntryDoc {
            matcher: Some("git.*".to_string()),
            ..hook("pre", "echo before tool")
        }],
        post_tool_use: vec![hook("post", "echo after tool")],
        stop: vec![hook("stop", "echo stopped")],
    }
}

fn awsdocs() -> CustomToolConfigKdl {
    let mut mcp = CustomToolConfigKdl::new("awsdocs");
    mcp.command = Some(Command { value: "aws-docs".to_string() });
    mcp.args =
        Some(ToolArgs { args: vec!["--verbose".to_string(), "--config=/path".to_string()] });
    mcp.env = vec![
        KeyValueDoc { key: "RUST_LOG".to_string(), value: "debug".to_string() },
        KeyValueDoc { key: "PATH".to_string(), value: "/usr/bin".to_string() },
    ];
    mcp.header =
        vec![KeyValueDoc { key: "Authorization".to_string(), value: "Bearer token".to_string() }];
    mcp.timeout = Some(Timeout { value: 5000 });
    mcp.oauth =
        Some(OAuthConfig { redirect_uri: RedirectUri { value: "127.0.0.1:7778".to_string() } });
    mcp
}

fn native() -> NativeToolsDoc {
    NativeToolsDoc {
        write: PermissionDoc {
            allows: vec![item("./src/*"), item("./scripts/**")],
            denies: vec![item("Cargo.lock")],
            overrides: vec![item("/tmp"), item("/var/log")],
            ..PermissionDoc::default()
        },
        shell: PermissionDoc {
            allows: vec![item("git status .*")],
            denies: vec![item("git push .*")],
            overrides: vec![item("git pull .*")],
            deny_by_default: Some(true),
            ..PermissionDoc::default()
        },
        ..NativeToolsDoc::default()
    }
}

fn file_doc() -> KdlAgentFileDoc {
    KdlAgentFileDoc {
        description: Some(Description { value: "agent from file".to_string() }),
        inherits: Inherits { parents: vec!["ignored".to_string()] },
        prompt: Some(Prompt { value: "Generate a test prompt".to_string() }),
        resources: vec![
            Resource { location: "file://resource.md".to_string() },
            Resource { location: "file://README.md".to_string() },
        ],
        include_mcp_json: Some(true),
        tools: Some(Tools { tools: vec!["*".to_string()] }),
        allowed_tools: Some(AllowedTools { allowed: vec!["@awsdocs".to_string()] }),
        model: None,
        hook: Some(hooks()),
        mcp: vec![awsdocs()],
        alias: vec![ToolAliasKdl { from: "execute_bash".to_string(), to: "shell".to_string() }],
        native_tool: native(),
        tool_setting: vec![],
    }
}

fn test_doc() -> KdlAgentDoc {
    let mut doc = KdlAgentDoc::from_file_source("test", file_doc());
    doc.inherits = Inherits { parents: vec!["parent".to_string()] };
    doc.description = Some(Description { value: "This is a test agent".to_string() });
    doc
}

#[test]
fn test_agent_decoding() {
    let config = GeneratorConfig::from_doc(&GeneratorConfigDoc { agent: vec![test_doc()] });
    assert_eq!(config.agent.len(), 1);
    let agent = config.get("test").unwrap().clone();
    assert_eq!(agent.name, "test");
    assert!(agent.model.is_none());
    assert!(!agent.is_template());
    let inherits = agent.inherits();
    assert_eq!(inherits.len(), 1);
    assert_eq!(inherits.get(0), "parent");
    assert!(agent.description.is_some());
    assert!(agent.prompt.is_some());
    assert!(agent.include_mcp_json());
    let tools = agent.tools();
    assert_eq!(tools.len(), 1);
    assert_eq!(tools.get(0), "*");
    let resources = agent.resources();
    assert_eq!(resources.len(), 2);
    assert!(resources.contains(&"file://resource.md".to_string()));
    assert!(resources.contains(&"file://README.md".to_string()));

    let hooks = agent.hooks().triggers();
    assert!(!hooks.is_empty());
    let hook = hooks.iter().find(|row| row.0 == HookTrigger::AgentSpawn);
    assert!(hook.is_some());
    assert_eq!(hook.unwrap().1[0].command, "echo i have spawned");

    assert!(hooks.iter().any(|row| row.0 == HookTrigger::PreToolUse));
    assert!(hooks.iter().any(|row| row.0 == HookTrigger::PostToolUse));
    assert!(hooks.iter().any(|row| row.0 == HookTrigger::Stop));
    assert!(hooks.iter().any(|row| row.0 == HookTrigger::UserPromptSubmit));

    let allowed = agent.allowed_tools();
    assert_eq!(allowed.len(), 1);
    assert_eq!(allowed.get(0), "@awsdocs");

    let mcp = agent.mcp_servers();
    assert_eq!(mcp.len(), 1);
    assert!(mcp.contains_key("awsdocs"));
    let aws_docs = mcp.get("awsdocs").unwrap();
    assert_eq!(aws_docs.command, "aws-docs");
    assert_eq!(aws_docs.args, vec!["--verbose", "--config=/path"]);
    assert!(!aws_docs.disabled);
    assert_eq!(aws_docs.headers.len(), 1);
    assert_eq!(aws_docs.env.len(), 2);
    assert_eq!(aws_docs.timeout, 5000);
    assert!(aws_docs.oauth.is_some());

    assert_eq!(agent.tool_aliases().len(), 1);

    assert_eq!(agent.get_tool_write().override_path.to_vec(), vec!["/tmp", "/var/log"]);
    assert_eq!(agent.get_tool_shell().deny_by_default, Some(true));
    assert!(agent.get_tool_read().allow.list.is_empty());
    assert!(agent.get_tool_aws().allow.list.is_empty());
}

#[test]
fn test_agent_empty() {
    let mut doc = KdlAgentDoc::new("test");
    doc.template = Some(true);
    let config = GeneratorConfig::from_doc(&GeneratorConfigDoc { agent: vec![doc] });
    assert_eq!(config.agent.len(), 1);
    let agent = config.get("test").unwrap().clone();
    assert_eq!(agent.name, "test");
    assert!(agent.model.is_none());
    assert!(agent.is_template());
}

#[test]
fn test_agent_file_source() {
    let agent: KdlAgentFileSource = file_doc();
    assert_eq!(agent.description.unwrap_or_default().value, "agent from file");
}

#[test]
fn file_gives_neither_parents_nor_template() {
    let draft = KdlAgent::from_file_source("helper", file_doc());
    assert_eq!(draft.name, "helper");
    assert!(draft.inherits.is_empty());
    assert_eq!(draft.template, None);
    assert_eq!(draft.description, Some("agent from file".to_string()));
    assert_eq!(draft.resources.len(), 2);
    assert_eq!(draft.mcp.len(), 1);
}

#[test]
fn getters_of_a_document() {
    let doc = test_doc();
    assert_eq!(doc.prompt(), "Generate a test prompt");
    assert_eq!(doc.description(), "This is a test agent");
    assert!(!doc.is_template());
    assert_eq!(doc.tools().to_vec(), vec!["*"]);
    assert_eq!(doc.allowed_tools().to_vec(), vec!["@awsdocs"]);
    assert_eq!(doc.inherits().to_vec(), vec!["parent"]);
    assert_eq!(doc.resources().len(), 2);
    assert_eq!(doc.mcp_servers().len(), 1);
    assert_eq!(doc.tool_aliases().get("execute_bash"), Some(&"shell".to_string()));
    assert_eq!(doc.hooks().stop.len(), 1);
    let blank = KdlAgentDoc::new("blank");
    assert_eq!(blank.prompt(), "");
    assert_eq!(blank.description(), "");
    assert!(blank.tools().is_empty());
    assert!(blank.hooks().is_empty());
}

#[test]
fn later_declaration_of_a_name_replaces_the_earlier() {
    let mut first = KdlAgentDoc::new("a");
    first.description = Some(Description { value: "first".to_string() });
    let other = KdlAgentDoc::new("b");
    let mut second = KdlAgentDoc::new("a");
    second.description = Some(Description { value: "second".to_string() });
    let config = GeneratorConfig::from_doc(&GeneratorConfigDoc { agent: vec![first, other, second] });
    assert_eq!(config.names().to_vec(), vec!["a", "b"]);
    assert_eq!(config.get("a").unwrap().description, Some("second".to_string()));
    assert!(config.get("c").is_none());
    assert_eq!(GeneratorConfig::new().names().len(), 0);
}

#[test]
fn blank_draft_has_nothing() {
    let draft = KdlAgent::new("x");
    assert_eq!(draft.name, "x");
    assert!(!draft.is_template());
    assert!(!draft.include_mcp_json());
    assert!(draft.resources().is_empty());
    assert!(draft.mcp_servers().is_empty());
    assert!(draft.hooks().is_empty());
}
