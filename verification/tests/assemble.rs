use kiro_generator::agent::{Agent, HookTrigger, ToolSettingValue, ToolTarget};
use kiro_generator::config::agent::{Inherits, Resource, Tools};
use kiro_generator::config::hook::{HookDoc, HookEntryDoc};
use kiro_generator::config::mcp::{Command, CustomToolConfigKdl, Timeout};
use kiro_generator::config::native::{GenericListItem, NativeToolsDoc, PermissionDoc};
use kiro_generator::config::tool_setting::{
    add_setting, collect_tool_settings, Json, JsonShape, ToolSetting,
};
use kiro_generator::config::{GeneratorConfig, GeneratorConfigDoc, KdlAgent, KdlAgentDoc};
use kiro_generator::error::ConfigError;
use kiro_generator::generator::{ConfigLocation, DocumentSet, Generator};
use kiro_generator::text_map::StrMap;

fn setting(name: &str, json: &str) -> ToolSetting {
    ToolSetting { name: name.to_string(), json: Json { value: json.to_string() } }
}

fn item(text: &str) -> GenericListItem {
    GenericListItem { item: text.to_string() }
}

#[test]
fn agent_without_tools_and_resources_gets_the_defaults() {
    let draft = KdlAgent::new("plain");
    let agent = Agent::try_from(&draft).unwrap();
    assert_eq!(agent.name, "plain");
    assert_eq!(agent.tools.to_vec(), vec!["*"]);
    assert_eq!(agent.resources.to_vec(), vec!["file://README.md", "file://AGENTS.md"]);
    assert!(agent.allowed_tools.is_empty());
    assert!(agent.hooks.is_empty());
    assert!(agent.mcp_servers.mcp_servers.is_empty());
    assert!(!agent.include_mcp_json);
    assert_eq!(agent.description, None);
}

#[test]
fn declared_tools_and_resources_are_kept() {
    let mut doc = KdlAgentDoc::new("own");
    doc.tools = Some(Tools { tools: vec!["fs_read".to_string()] });
    doc.resources = vec![Resource { location: "file://mine.md".to_string() }];
    doc.include_mcp_json = Some(true);
    let agent = Agent::try_from(&KdlAgent::from_doc(&doc)).unwrap();
    assert_eq!(agent.tools.to_vec(), vec!["fs_read"]);
    assert_eq!(agent.resources.to_vec(), vec!["file://mine.md"]);
    assert!(agent.include_mcp_json);
}

#[test]
fn default_agent() {
    let agent = Agent::default();
    assert_eq!(agent.name, "kiro_default");
    assert_eq!(agent.description, Some("Default agent".to_string()));
    assert_eq!(agent.tools.to_vec(), vec!["*"]);
    assert_eq!(agent.resources.to_vec(), vec!["file://README.md", "file://AGENTS.md"]);
    assert!(agent.include_mcp_json);
    assert!(agent.tools_settings.is_empty());
    assert_eq!(agent.model, None);
}

#[test]
fn zero_timeout_becomes_the_default_and_others_pass() {
    let mut draft = KdlAgent::new("servers");
    let mut zero = CustomToolConfigKdl::new("zero");
    zero.command = Some(Command { value: "a".to_string() });
    let mut zero = kiro_generator::agent::CustomToolConfig::from_kdl(&zero);
    zero.timeout = 0;
    let mut other = CustomToolConfigKdl::new("other");
    other.timeout = Some(Timeout { value: 4321 });
    draft.mcp.insert("zero".to_string(), zero);
    draft.mcp.insert("other".to_string(), kiro_generator::agent::CustomToolConfig::from_kdl(&other));
    let agent = Agent::try_from(&draft).unwrap();
    assert_eq!(agent.mcp_servers.mcp_servers.len(), 2);
    assert_eq!(agent.mcp_servers.mcp_servers.get("zero").unwrap().timeout, 120000);
    assert_eq!(agent.mcp_servers.mcp_servers.get("zero").unwrap().command, "a");
    assert_eq!(agent.mcp_servers.mcp_servers.get("other").unwrap().timeout, 4321);
}

#[test]
fn settings_of_built_in_tools() {
    let mut doc = KdlAgentDoc::new("perm");
    doc.native_tool = NativeToolsDoc {
        shell: PermissionDoc {
            allows: vec![item("git status .*")],
            denies: vec![item("git push .*")],
            overrides: vec![item("git push .*")],
            deny_by_default: Some(true),
            disable_auto_readonly: Some(true),
        },
        read: PermissionDoc { allows: vec![item("./src")], ..PermissionDoc::default() },
        ..NativeToolsDoc::default()
    };
    let agent = Agent::try_from(&KdlAgent::from_doc(&doc)).unwrap();
    assert_eq!(agent.tools_settings.len(), 2);
    assert_eq!(agent.tools_settings.key_at(0), ToolTarget::Read.as_ref());
    assert_eq!(agent.tools_settings.key_at(1), "shell");
    match agent.tools_settings.get("shell").unwrap() {
        ToolSettingValue::Shell(shell) => {
            assert_eq!(shell.allowed_commands.to_vec(), vec!["git status .*", "git push .*"]);
            assert!(shell.denied_commands.is_empty());
            assert!(shell.deny_by_default);
            assert!(!shell.auto_allow_readonly);
        }
        other => panic!("unexpected {other:?}"),
    }
    assert!(agent.tools_settings.get("aws").is_none());
    assert!(agent.tools_settings.get("write").is_none());
}

#[test]
fn shell_settings_are_there_unless_they_are_the_left_out_ones() {
    let agent = Agent::try_from(&KdlAgent::new("plain")).unwrap();
    assert_eq!(agent.tools_settings.len(), 1);
    assert!(matches!(agent.tools_settings.get("shell"), Some(ToolSettingValue::Shell(_))));

    let mut doc = KdlAgentDoc::new("quiet");
    doc.native_tool.shell.disable_auto_readonly = Some(true);
    let agent = Agent::try_from(&KdlAgent::from_doc(&doc)).unwrap();
    assert!(agent.tools_settings.is_empty());
}

#[test]
fn tool_setting_must_be_a_json_object() {
    assert_eq!(
        setting("good", "{\"a\": [1, 2]}").to_value(),
        Ok(("good".to_string(), "{\"a\": [1, 2]}".to_string()))
    );
    assert_eq!(
        setting("list", "[1, 2]").to_value(),
        Err(ConfigError::ToolSettingNotObject { name: "list".to_string() })
    );
    assert_eq!(
        setting("text", "\"{}\"").to_value(),
        Err(ConfigError::ToolSettingNotObject { name: "text".to_string() })
    );
    assert_eq!(
        setting("bad", "{not json").to_value(),
        Err(ConfigError::InvalidToolSetting { name: "bad".to_string() })
    );
    assert_eq!(
        setting("empty", "").to_value(),
        Err(ConfigError::InvalidToolSetting { name: "empty".to_string() })
    );
}

#[test]
fn shape_decides_what_a_setting_is_worth() {
    let s = setting("x", "whatever");
    assert_eq!(s.check_shape(Some(JsonShape::Object)), Ok(("x".to_string(), "whatever".to_string())));
    for shape in
        [JsonShape::Null, JsonShape::Bool, JsonShape::Number, JsonShape::String, JsonShape::Array]
    {
        assert_eq!(
            s.check_shape(Some(shape)),
            Err(ConfigError::ToolSettingNotObject { name: "x".to_string() })
        );
    }
    assert_eq!(s.check_shape(None), Err(ConfigError::InvalidToolSetting { name: "x".to_string() }));
}

#[test]
fn duplicate_tool_setting_is_an_error() {
    let settings = vec![setting("a", "{}"), setting("b", "{}"), setting("a", "{\"x\":1}")];
    let err = collect_tool_settings("agent", &settings).unwrap_err();
    assert_eq!(
        err,
        ConfigError::DuplicateToolSetting { agent: "agent".to_string(), name: "a".to_string() }
    );
    assert_eq!(
        err.to_string(),
        "[agent] - Duplicate tool-setting 'a' found. Each tool-setting name must be unique."
    );
    let ok = collect_tool_settings("agent", &settings[..2].to_vec()).unwrap();
    assert_eq!(ok.len(), 2);
    assert_eq!(ok.key_at(0), "a");

    let mut map: StrMap<String> = StrMap::new();
    assert!(add_setting("agent", &mut map, ("k".to_string(), "{}".to_string())).is_ok());
    assert!(add_setting("agent", &mut map, ("k".to_string(), "{}".to_string())).is_err());
    assert_eq!(map.len(), 1);
}

#[test]
fn first_wrong_setting_gives_the_error() {
    let settings = vec![setting("a", "{}"), setting("b", "nope"), setting("a", "{}")];
    assert_eq!(
        collect_tool_settings("agent", &settings),
        Err(ConfigError::InvalidToolSetting { name: "b".to_string() })
    );
    assert_eq!(
        ConfigError::InvalidToolSetting { name: "b".to_string() }.to_string(),
        "Failed to parse JSON for tool-setting 'b'"
    );
    assert_eq!(
        ConfigError::ToolSettingNotObject { name: "b".to_string() }.to_string(),
        "tool-setting 'b' must be a JSON object"
    );
}

#[test]
fn tool_setting_replaces_the_settings_of_a_built_in_tool() {
    let mut doc = KdlAgentDoc::new("extra");
    doc.tool_setting = vec![setting("shell", "{\"allowedCommands\": []}"), setting("custom", "{}")];
    let agent = Agent::try_from(&KdlAgent::from_doc(&doc)).unwrap();
    assert_eq!(agent.tools_settings.len(), 2);
    assert_eq!(
        agent.tools_settings.get("shell"),
        Some(&ToolSettingValue::Json("{\"allowedCommands\": []}".to_string()))
    );
    assert_eq!(agent.tools_settings.get("custom"), Some(&ToolSettingValue::Json("{}".to_string())));

    doc.tool_setting.push(setting("custom", "{}"));
    assert!(Agent::try_from(&KdlAgent::from_doc(&doc)).is_err());
}

#[test]
fn hooks_of_a_manifest() {
    let mut doc = KdlAgentDoc::new("hooked");
    doc.hook = Some(HookDoc {
        agent_spawn: vec![HookEntryDoc {
            name: "spawn".to_string(),
            command: "echo hi".to_string(),
            ..HookEntryDoc::default()
        }],
        ..HookDoc::default()
    });
    let agent = Agent::try_from(&KdlAgent::from_doc(&doc)).unwrap();
    assert_eq!(agent.hooks.len(), 5);
    assert_eq!(agent.hooks[0].0, HookTrigger::AgentSpawn);
    assert_eq!(agent.hooks[0].1[0].command, "echo hi");
    assert!(agent.hooks[1].1.is_empty());
}

fn plan_documents() -> DocumentSet {
    let mut base = KdlAgentDoc::new("base");
    base.template = Some(true);
    base.resources = vec![Resource { location: "file://base.md".to_string() }];
    let mut child = KdlAgentDoc::new("child");
    child.template = Some(false);
    child.inherits = Inherits { parents: vec!["base".to_string()] };
    child.native_tool.write.overrides = vec![item("/tmp")];
    child.native_tool.shell.overrides = vec![item("git push .*")];
    let far = KdlAgentDoc::new("far");
    DocumentSet {
        local_inline: GeneratorConfig::from_doc(&GeneratorConfigDoc { agent: vec![base, child] }),
        global_inline: GeneratorConfig::from_doc(&GeneratorConfigDoc { agent: vec![far] }),
        ..DocumentSet::default()
    }
}

#[test]
fn template_is_resolved_but_not_written() {
    let generator = Generator::new(&ConfigLocation::Both("/h/.kiro/generators".to_string()), &plan_documents());
    let results = generator.write_all(Some("/h")).unwrap();
    assert_eq!(results.len(), 3);
    assert_eq!(results[0].agent.name, "base");
    assert!(!results[0].writable);
    assert!(results[0].local);
    assert_eq!(results[1].agent.name, "child");
    assert!(results[1].writable);
    assert_eq!(results[1].destination, ".kiro/agents");
    assert_eq!(results[1].manifest_path(), ".kiro/agents/child.json");
    assert_eq!(results[1].kiro_agent.resources.to_vec(), vec!["file://base.md"]);
    assert_eq!(results[1].resources(), vec!["file://base.md"]);
    assert_eq!(results[1].forced(&ToolTarget::Write), vec!["/tmp"]);
    assert_eq!(results[1].forced(&ToolTarget::Shell), vec!["git push .*"]);
    assert!(results[1].forced(&ToolTarget::Read).is_empty());
    assert!(results[1].forced(&ToolTarget::Aws).is_empty());
    assert_eq!(results[2].agent.name, "far");
    assert!(!results[2].local);
    assert!(results[2].writable);
    assert_eq!(results[2].destination, "/h/.kiro/agents");
    assert_eq!(results[2].manifest_path(), "/h/.kiro/agents/far.json");
    assert_eq!(generator.merge().unwrap().len(), 3);
}

#[test]
fn plan_fails_on_a_missing_parent_or_a_wrong_setting() {
    let mut docs = plan_documents();
    let mut orphan = KdlAgent::new("orphan");
    orphan.inherits.insert("nobody".to_string());
    docs.local_inline.agent.insert("orphan".to_string(), orphan);
    let generator = Generator::new(&ConfigLocation::Local, &docs);
    assert_eq!(
        generator.write_all(None).unwrap_err(),
        ConfigError::MissingParent { child: "orphan".to_string(), parent: "nobody".to_string() }
    );

    let mut docs = plan_documents();
    let mut wrong = KdlAgent::new("wrong");
    wrong.tool_setting = vec![setting("s", "1")];
    docs.local_inline.agent.insert("wrong".to_string(), wrong.clone());
    let generator = Generator::new(&ConfigLocation::Local, &docs);
    let expected = ConfigError::ToolSettingNotObject { name: "s".to_string() };
    assert_eq!(generator.write_all(None).unwrap_err(), expected);
    assert_eq!(generator.write(wrong, None).unwrap_err(), expected);
}
