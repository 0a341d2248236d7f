use kiro_generator::config::agent::{Description, Inherits, Model, Prompt, Resource};
use kiro_generator::config::{GeneratorConfig, GeneratorConfigDoc, KdlAgentDoc};
use kiro_generator::error::ConfigError;
use kiro_generator::generator::merge::{resolve, resolve_all};

fn agent(name: &str, parents: &[&str]) -> KdlAgentDoc {
    let mut doc = KdlAgentDoc::new(name);
    doc.inherits = Inherits { parents: parents.iter().map(|p| p.to_string()).collect() };
    doc.resources = vec![Resource { location: format!("file://{name}.md") }];
    doc
}

fn config(docs: Vec<KdlAgentDoc>) -> GeneratorConfig {
    GeneratorConfig::from_doc(&GeneratorConfigDoc { agent: docs })
}

#[test]
fn agent_without_parents_is_unchanged() {
    let mut doc = agent("solo", &[]);
    doc.description = Some(Description { value: "alone".to_string() });
    let drafts = config(vec![doc, agent("other", &[])]);
    let target = drafts.get("solo").unwrap();
    let resolved = resolve(&drafts.agent, target).unwrap();
    assert_eq!(resolved.name, "solo");
    assert_eq!(resolved.description, Some("alone".to_string()));
    assert_eq!(resolved.resources.to_vec(), vec!["file://solo.md"]);
    assert!(resolved.inherits.is_empty());
    assert_eq!(resolved.hook, target.hook);
    assert_eq!(resolved.mcp, target.mcp);
    assert_eq!(resolved.alias, target.alias);
    assert_eq!(resolved.native_tool, target.native_tool);
    assert_eq!(resolved.template, target.template);
    assert_eq!(resolved.prompt, target.prompt);
    assert_eq!(resolved.model, target.model);
    assert_eq!(resolved.tools, target.tools);
    assert_eq!(resolved.allowed_tools, target.allowed_tools);
    assert_eq!(resolved.include_mcp_json, target.include_mcp_json);
    assert_eq!(resolved.tool_setting, target.tool_setting);
}

#[test]
fn child_keeps_its_own_values_and_its_name() {
    let mut child = agent("child", &["parent"]);
    child.description = Some(Description { value: "I am a child".to_string() });
    let mut parent = agent("parent", &[]);
    parent.description = Some(Description { value: "I am parent".to_string() });
    parent.prompt = Some(Prompt { value: "from parent".to_string() });
    let drafts = config(vec![child, parent]);
    let resolved = resolve(&drafts.agent, drafts.get("child").unwrap()).unwrap();
    assert_eq!(resolved.name, "child");
    assert_eq!(resolved.description, Some("I am a child".to_string()));
    assert_eq!(resolved.prompt, Some("from parent".to_string()));
    assert_eq!(resolved.resources.to_vec(), vec!["file://child.md", "file://parent.md"]);
}

#[test]
fn missing_parent_is_an_error_that_names_both() {
    let drafts = config(vec![agent("child", &["base", "ghost"]), agent("base", &[])]);
    let err = resolve(&drafts.agent, drafts.get("child").unwrap()).unwrap_err();
    assert_eq!(
        err,
        ConfigError::MissingParent { child: "child".to_string(), parent: "ghost".to_string() }
    );
    assert_eq!(err.to_string(), "[child] - parent agent 'ghost' not found");
    assert_eq!(resolve_all(&drafts.agent).unwrap_err(), err);
}

#[test]
fn parent_named_first_wins_over_parent_named_later() {
    let mut first = agent("first", &[]);
    first.model = Some(Model { value: "model-of-first".to_string() });
    let mut second = agent("second", &[]);
    second.model = Some(Model { value: "model-of-second".to_string() });
    second.prompt = Some(Prompt { value: "prompt-of-second".to_string() });
    let drafts = config(vec![agent("child", &["first", "second"]), second, first]);
    let resolved = resolve(&drafts.agent, drafts.get("child").unwrap()).unwrap();
    assert_eq!(resolved.model, Some("model-of-first".to_string()));
    assert_eq!(resolved.prompt, Some("prompt-of-second".to_string()));
    assert_eq!(
        resolved.resources.to_vec(),
        vec!["file://child.md", "file://first.md", "file://second.md"]
    );

    let drafts = config(vec![
        agent("child", &["second", "first"]),
        drafts.get("second").map(|_| {
            let mut d = agent("second", &[]);
            d.model = Some(Model { value: "model-of-second".to_string() });
            d
        })
        .unwrap(),
        {
            let mut d = agent("first", &[]);
            d.model = Some(Model { value: "model-of-first".to_string() });
            d
        },
    ]);
    let resolved = resolve(&drafts.agent, drafts.get("child").unwrap()).unwrap();
    assert_eq!(resolved.model, Some("model-of-second".to_string()));
}

#[test]
fn inheritance_goes_one_level_only() {
    let mut grand = agent("grand", &[]);
    grand.prompt = Some(Prompt { value: "from grand".to_string() });
    let drafts =
        config(vec![agent("child", &["parent"]), agent("parent", &["grand"]), grand]);
    let resolved = resolve(&drafts.agent, drafts.get("child").unwrap()).unwrap();
    assert_eq!(resolved.prompt, None);
    assert_eq!(resolved.resources.to_vec(), vec!["file://child.md", "file://parent.md"]);
    assert_eq!(resolved.inherits.to_vec(), vec!["parent", "grand"]);

    let all = resolve_all(&drafts.agent).unwrap();
    assert_eq!(all.len(), 3);
    assert_eq!(all[0].name, "child");
    assert_eq!(all[1].name, "parent");
    assert_eq!(all[1].prompt, Some("from grand".to_string()));
    assert_eq!(all[2].name, "grand");
}

#[test]
fn template_takes_part_in_inheritance() {
    let mut base = agent("base", &[]);
    base.template = Some(true);
    base.prompt = Some(Prompt { value: "shared".to_string() });
    let mut child = agent("child", &["base"]);
    child.template = Some(false);
    let drafts = config(vec![child, base]);
    let resolved = resolve(&drafts.agent, drafts.get("child").unwrap()).unwrap();
    assert_eq!(resolved.prompt, Some("shared".to_string()));
    assert!(!resolved.is_template());
}
