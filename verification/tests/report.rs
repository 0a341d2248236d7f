use kiro_generator::agent::CustomToolConfig;
use kiro_generator::config::mcp::{Command, CustomToolConfigKdl, Disabled};
use kiro_generator::config::tool_setting::{Json, ToolSetting};
use kiro_generator::config::{GeneratorConfig, KdlAgent, KdlAgentDoc};
use kiro_generator::error::ConfigError;
use kiro_generator::generator::discover::{add_local, agent_sources};
use kiro_generator::generator::report::{has_local, reported, Placement};
use kiro_generator::generator::{AgentResult, ConfigLocation, DocumentSet, Generator};
use kiro_generator::source::AgentSource;
use kiro_generator::text_set::StrSet;

fn server(name: &str, disabled: bool) -> (String, CustomToolConfig) {
    let mut doc = CustomToolConfigKdl::new(name);
    doc.command = Some(Command { value: "run".to_string() });
    doc.disabled = Some(Disabled { value: disabled });
    (name.to_string(), CustomToolConfig::from_kdl(&doc))
}

fn plan(agent: KdlAgent, local: bool, home: Option<&str>) -> AgentResult {
    let mut docs = DocumentSet::default();
    let mut config = GeneratorConfig::new();
    config.agent.insert(agent.name.clone(), agent.clone());
    if local {
        docs.local_inline = config;
    } else {
        docs.global_inline = config;
    }
    let generator = Generator::new(&ConfigLocation::Both("/h/.kiro/generators".to_string()), &docs);
    let mut results = generator.write_all(home).unwrap();
    assert_eq!(results.len(), 1);
    results.remove(0)
}

fn sample() -> KdlAgent {
    let mut agent = KdlAgent::new("sample");
    let (name, config) = server("docs", false);
    agent.mcp.insert(name, config);
    let (name, config) = server("off", true);
    agent.mcp.insert(name, config);
    let (name, config) = server("é", false);
    agent.mcp.insert(name, config);
    for tool in ["fs_read", "@docs", "@off", "@missing", "@docs/search", "x", "é", "@é", "", "@"] {
        agent.allowed_tools.insert(tool.to_string());
    }
    agent
}

#[test]
fn enabled_servers_are_those_not_left_out() {
    let result = plan(sample(), true, None);
    assert_eq!(result.enabled_servers(), vec!["docs", "é"]);
}

#[test]
fn shown_tools_need_two_bytes_and_an_enabled_server() {
    let result = plan(sample(), true, None);
    assert_eq!(result.enabled_tools(), vec!["fs_read", "@docs", "é", "@é"]);
}

#[test]
fn placement_of_an_agent() {
    assert_eq!(plan(sample(), true, Some("/h")).placement(), Placement::Local);
    assert_eq!(plan(sample(), false, Some("/h")).placement(), Placement::Global);
    assert_eq!(plan(sample(), false, None).placement(), Placement::Local);
    let mut template = sample();
    template.template = Some(true);
    let result = plan(template, false, Some("/h"));
    assert_eq!(result.placement(), Placement::Template);
    assert!(!result.is_listed(false));
    assert!(result.is_listed(true));
    assert!(plan(sample(), true, None).is_listed(false));
}

#[test]
fn only_agents_of_the_project_are_reported_where_there_is_one() {
    let a = plan(KdlAgent::new("a"), false, Some("/h"));
    let b = plan(KdlAgent::new("b"), true, Some("/h"));
    let c = plan(KdlAgent::new("c"), false, Some("/h"));
    let d = plan(KdlAgent::new("d"), true, Some("/h"));
    assert!(!has_local(&vec![a.clone(), c.clone()]));
    assert!(has_local(&vec![a.clone(), b.clone()]));
    let kept = reported(vec![a.clone(), b, c.clone(), d]);
    assert_eq!(kept.iter().map(|r| r.agent.name.as_str()).collect::<Vec<_>>(), vec!["b", "d"]);
    let kept = reported(vec![a, c]);
    assert_eq!(kept.iter().map(|r| r.agent.name.as_str()).collect::<Vec<_>>(), vec!["a", "c"]);
    assert!(reported(vec![]).is_empty());
}

#[test]
fn sources_of_declarations_kept_as_text() {
    let mut local_agents = StrSet::new();
    let both = ConfigLocation::Both("/h/.kiro/generators".to_string());
    let sources = agent_sources(
        &both,
        "dev",
        "global text".to_string(),
        "local text".to_string(),
        "file text",
        &mut local_agents,
    );
    assert_eq!(
        sources,
        vec![
            AgentSource::GlobalFile("/h/.kiro/generators/dev.toml".to_string()),
            AgentSource::GlobalInline("global text".to_string()),
            AgentSource::LocalFile(".kiro/generators/dev.toml".to_string()),
            AgentSource::LocalInline("local text".to_string()),
        ]
    );
    assert_eq!(local_agents.to_vec(), vec!["dev"]);

    let sources = agent_sources(
        &ConfigLocation::Local,
        "ops",
        "g".to_string(),
        "l".to_string(),
        "",
        &mut local_agents,
    );
    assert_eq!(sources, vec![AgentSource::LocalInline("l".to_string())]);
    assert_eq!(local_agents.to_vec(), vec!["dev"]);

    let sources = agent_sources(
        &ConfigLocation::Global("/g".to_string()),
        "ops",
        "g".to_string(),
        "l".to_string(),
        "file",
        &mut local_agents,
    );
    assert_eq!(
        sources,
        vec![
            AgentSource::GlobalFile("/g/ops.toml".to_string()),
            AgentSource::GlobalInline("g".to_string())
        ]
    );
    assert_eq!(local_agents.len(), 1);

    let mut list = vec![AgentSource::Raw("r".to_string())];
    add_local("ops", "inline".to_string(), "x", &mut list, &mut local_agents);
    assert_eq!(list.len(), 3);
    assert_eq!(list[1], AgentSource::LocalFile(".kiro/generators/ops.toml".to_string()));
    assert_eq!(list[2], AgentSource::LocalInline("inline".to_string()));
    assert_eq!(local_agents.to_vec(), vec!["dev", "ops"]);
}

#[test]
fn tool_settings_of_a_document_and_of_a_draft() {
    let mut doc = KdlAgentDoc::new("a");
    doc.tool_setting = vec![
        ToolSetting { name: "one".to_string(), json: Json { value: "{\"k\": true}".to_string() } },
        ToolSetting { name: "two".to_string(), json: Json { value: " { } ".to_string() } },
    ];
    let settings = doc.extra_tool_settings().unwrap();
    assert_eq!(settings.keys().to_vec(), vec!["one", "two"]);
    assert_eq!(settings.get("one"), Some(&"{\"k\": true}".to_string()));
    let draft = KdlAgent::from_doc(&doc);
    assert_eq!(draft.extra_tool_settings().unwrap(), settings);

    doc.tool_setting.push(ToolSetting {
        name: "three".to_string(),
        json: Json { value: "null".to_string() },
    });
    assert_eq!(
        doc.extra_tool_settings(),
        Err(ConfigError::ToolSettingNotObject { name: "three".to_string() })
    );
    assert!(KdlAgentDoc::new("none").extra_tool_settings().unwrap().is_empty());
}
