use kiro_generator::config::agent::{Description, Model, Prompt, Resource};
use kiro_generator::config::{
    GeneratorConfig, GeneratorConfigDoc, KdlAgent, KdlAgentDoc, KdlAgentFileDoc,
};
use kiro_generator::generator::discover::{all_names, discover_agent};
use kiro_generator::generator::{discover, ConfigLocation, DocumentSet, Generator};
use kiro_generator::source::KdlAgentSource;

fn inline(names: &[&str], layer: &str) -> GeneratorConfig {
    let agent = names
        .iter()
        .map(|n| {
            let mut doc = KdlAgentDoc::new(n);
            doc.description = Some(Description { value: format!("{layer} inline {n}") });
            doc.resources = vec![Resource { location: format!("file://{layer}-inline.md") }];
            doc
        })
        .collect();
    GeneratorConfig::from_doc(&GeneratorConfigDoc { agent })
}

fn files(names: &[&str], layer: &str) -> GeneratorConfig {
    let mut config = GeneratorConfig::new();
    for n in names {
        let doc = KdlAgentFileDoc {
            description: Some(Description { value: format!("{layer} file {n}") }),
            prompt: Some(Prompt { value: format!("{layer} file prompt") }),
            resources: vec![Resource { location: format!("file://{layer}-file.md") }],
            ..KdlAgentFileDoc::default()
        };
        config.agent.insert(n.to_string(), KdlAgent::from_file_source(n, doc));
    }
    config
}

fn documents() -> DocumentSet {
    DocumentSet {
        local_inline: inline(&["base", "aws-test", "dependabot"], "local"),
        global_inline: inline(&["base", "aws-test", "dependabot"], "global"),
        local_files: files(&["base", "aws-test", "dependabot"], "local"),
        global_files: files(&["aws-test"], "global"),
    }
}

fn home() -> String {
    "/home/user/.kiro/generators".to_string()
}

#[test]
fn test_discover_local_agents_kdl() {
    let resolved = discover(&ConfigLocation::Local, &documents());
    let agents = resolved.agents;
    let sources = resolved.sources;
    assert!(!agents.is_empty());
    assert_eq!(sources.0.len(), 3);
    assert!(sources.0.contains_key("base"));
    assert!(sources.0.contains_key("aws-test"));
    assert!(sources.0.contains_key("dependabot"));

    let source = sources.get("base").unwrap();
    assert_eq!(source.len(), 2);

    let source = sources.get("aws-test").unwrap();
    assert_eq!(source.len(), 2);

    let source = sources.get("dependabot").unwrap();
    assert_eq!(source.len(), 2);

    discover(&ConfigLocation::Global(home()), &documents());
}

#[test]
fn test_discover_global_agents_kdl() {
    let resolved = discover(&ConfigLocation::Global(home()), &documents());
    assert_eq!(resolved.agents.len(), 3);
    for i in 0..resolved.sources.0.len() {
        for s in resolved.sources.0.value_at(i).items.iter() {
            assert!(
                matches!(s, KdlAgentSource::GlobalInline | KdlAgentSource::GlobalFile(_)),
                "agent is not global"
            )
        }
    }
}

#[test]
fn test_discover_both_agents_kdl() {
    let resolved = discover(&ConfigLocation::Both(home()), &documents());

    assert_eq!(resolved.agents.len(), 3);

    for i in 0..resolved.sources.0.len() {
        let n = resolved.sources.0.key_at(i);
        let agent_sources = resolved.sources.0.value_at(i);
        if n == "aws-test" {
            assert_eq!(agent_sources.len(), 4);
        } else {
            assert_eq!(agent_sources.len(), 3);
        }
    }
}

#[test]
fn sources_come_from_the_lowest_precedence_to_the_highest() {
    let (_, sources) =
        discover_agent("aws-test", &ConfigLocation::Both(home()), &documents()).unwrap();
    assert_eq!(
        sources.items,
        vec![
            KdlAgentSource::GlobalFile("/home/user/.kiro/generators/aws-test.kdl".to_string()),
            KdlAgentSource::GlobalInline,
            KdlAgentSource::LocalFile(".kiro/generators/aws-test.kdl".to_string()),
            KdlAgentSource::LocalInline,
        ]
    );
    assert!(sources.is_local());
    assert_eq!(sources.items[0].label(), "/home/user/.kiro/generators/aws-test.kdl");
    assert_eq!(sources.items[1].label(), "global-inline");
    assert_eq!(sources.items[3].label(), "local-inline");
}

#[test]
fn project_document_outranks_project_file_outranks_user_layer() {
    let docs = documents();
    let both = ConfigLocation::Both(home());
    let (draft, _) = discover_agent("aws-test", &both, &docs).unwrap();
    assert_eq!(draft.name, "aws-test");
    assert_eq!(draft.description, Some("local inline aws-test".to_string()));
    assert_eq!(draft.prompt, Some("local file prompt".to_string()));
    assert_eq!(
        draft.resources.to_vec(),
        vec![
            "file://local-inline.md",
            "file://local-file.md",
            "file://global-inline.md",
            "file://global-file.md"
        ]
    );

    let (draft, sources) =
        discover_agent("aws-test", &ConfigLocation::Global(home()), &docs).unwrap();
    assert_eq!(draft.description, Some("global inline aws-test".to_string()));
    assert_eq!(draft.prompt, Some("global file prompt".to_string()));
    assert_eq!(draft.resources.to_vec(), vec!["file://global-inline.md", "file://global-file.md"]);
    assert!(!sources.is_local());

    let (draft, _) = discover_agent("base", &ConfigLocation::Local, &docs).unwrap();
    assert_eq!(draft.description, Some("local inline base".to_string()));
    assert_eq!(draft.resources.to_vec(), vec!["file://local-inline.md", "file://local-file.md"]);
}

#[test]
fn missing_sources_are_skipped() {
    let docs = DocumentSet {
        local_inline: inline(&["only-local"], "local"),
        global_inline: inline(&["only-global"], "global"),
        local_files: GeneratorConfig::new(),
        global_files: files(&["only-local"], "global"),
    };
    let both = ConfigLocation::Both(home());
    let names = all_names(&both, &docs.local_inline, &docs.global_inline);
    assert_eq!(names.to_vec(), vec!["only-local", "only-global"]);

    let resolved = discover(&ConfigLocation::Both(home()), &docs);
    assert_eq!(resolved.agents.len(), 2);
    assert_eq!(resolved.agents.key_at(0), "only-local");
    assert_eq!(resolved.sources.get("only-local").unwrap().len(), 2);
    assert_eq!(resolved.sources.get("only-global").unwrap().len(), 1);
    assert!(resolved.sources.is_local("only-local"));
    assert!(!resolved.sources.is_local("only-global"));
    assert!(!resolved.sources.is_local("nobody"));
    let draft = resolved.agents.get("only-local").unwrap();
    assert_eq!(draft.description, Some("local inline only-local".to_string()));
    assert_eq!(draft.prompt, Some("global file prompt".to_string()));
}

#[test]
fn only_documents_of_the_layers_that_are_read_name_agents() {
    let docs = DocumentSet {
        local_inline: inline(&["only-local", "shared"], "local"),
        global_inline: inline(&["only-global", "shared"], "global"),
        local_files: files(&["only-global"], "local"),
        global_files: files(&["only-local"], "global"),
    };
    let local = ConfigLocation::Local;
    let global = ConfigLocation::Global(home());
    assert_eq!(
        all_names(&local, &docs.local_inline, &docs.global_inline).to_vec(),
        vec!["only-local", "shared"]
    );
    assert_eq!(
        all_names(&global, &docs.local_inline, &docs.global_inline).to_vec(),
        vec!["only-global", "shared"]
    );

    let resolved = discover(&local, &docs);
    assert_eq!(resolved.agents.keys().to_vec(), vec!["only-local", "shared"]);
    assert!(resolved.agents.get("only-global").is_none());
    assert!(resolved.sources.get("only-global").is_none());
    assert_eq!(
        resolved.agents.get("shared").unwrap().description,
        Some("local inline shared".to_string())
    );

    let resolved = discover(&global, &docs);
    assert_eq!(resolved.agents.keys().to_vec(), vec!["only-global", "shared"]);
    assert!(resolved.agents.get("only-local").is_none());
    assert!(resolved.sources.get("only-local").is_none());
    assert_eq!(
        resolved.agents.get("shared").unwrap().description,
        Some("global inline shared".to_string())
    );
}

#[test]
fn every_discovered_agent_has_a_source() {
    let docs = documents();
    for location in
        [ConfigLocation::Local, ConfigLocation::Global(home()), ConfigLocation::Both(home())]
    {
        let resolved = discover(&location, &docs);
        assert_eq!(resolved.agents.len(), resolved.sources.0.len());
        for i in 0..resolved.sources.0.len() {
            assert_eq!(resolved.sources.0.key_at(i), resolved.agents.key_at(i));
            assert!(resolved.sources.0.value_at(i).len() > 0);
        }
    }
    let empty = discover(&ConfigLocation::Both(home()), &DocumentSet::default());
    assert!(empty.agents.is_empty());
    assert!(empty.sources.0.is_empty());
}

#[test]
fn agent_that_no_layer_speaks_of_is_not_there() {
    let docs = documents();
    assert!(discover_agent("nobody", &ConfigLocation::Both(home()), &docs).is_none());
    let only_global = DocumentSet {
        global_inline: inline(&["far"], "global"),
        ..DocumentSet::default()
    };
    assert!(discover_agent("far", &ConfigLocation::Local, &only_global).is_none());
    let (draft, sources) =
        discover_agent("far", &ConfigLocation::Global(home()), &only_global).unwrap();
    assert_eq!(draft.name, "far");
    assert_eq!(sources.len(), 1);
}

#[test]
fn draft_is_stamped_with_the_name_it_is_listed_under() {
    let mut config = GeneratorConfig::new();
    let mut odd = KdlAgent::new("other-name");
    odd.model = Some(Model { value: "m".to_string() }.value);
    config.agent.insert("listed".to_string(), odd);
    let docs = DocumentSet { local_inline: config, ..DocumentSet::default() };
    let resolved = discover(&ConfigLocation::Local, &docs);
    assert_eq!(resolved.agents.get("listed").unwrap().name, "listed");
    assert_eq!(resolved.agents.get("listed").unwrap().model, Some("m".to_string()));
}

#[test]
fn generator_places_manifests() {
    let generator = Generator::new(&ConfigLocation::Both(home()), &documents());
    assert_eq!(generator.global_path, Some("/home/user/.kiro/generators/kg.kdl".to_string()));
    assert!(generator.is_local("base"));
    assert_eq!(generator.destination_dir("base", Some("/home/user")), ".kiro/agents");

    let global = Generator::new(&ConfigLocation::Global(home()), &documents());
    assert!(!global.is_local("base"));
    assert_eq!(global.destination_dir("base", Some("/home/user")), "/home/user/.kiro/agents");
    assert_eq!(global.destination_dir("base", None), ".kiro/agents");
    assert_eq!(Generator::new(&ConfigLocation::Local, &documents()).global_path, None);
}

#[test]
fn paths_of_a_location() {
    let both = ConfigLocation::Both("/h/.kiro/generators".to_string());
    assert!(both.includes_local());
    assert!(both.includes_global());
    assert_eq!(both.local_kg(), ".kiro/generators/kg.kdl");
    assert_eq!(both.global_kg(), Some("/h/.kiro/generators/kg.kdl".to_string()));
    assert_eq!(both.local("a"), ".kiro/generators/a.kdl");
    assert_eq!(both.global("a"), Some("/h/.kiro/generators/a.kdl".to_string()));
    let local = ConfigLocation::Local;
    assert!(local.includes_local());
    assert!(!local.includes_global());
    assert_eq!(local.global_kg(), None);
    assert_eq!(local.global("a"), None);
    let global = ConfigLocation::Global("g".to_string());
    assert!(!global.includes_local());
    assert!(global.includes_global());
}
