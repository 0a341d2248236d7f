use kiro_generator::commands::{Args, Cli, Command};
use kiro_generator::source::{AgentSource, KdlSources};
use kiro_generator::text::{split_newline_text, str_eq};
use kiro_generator::text_map::StrMap;
use kiro_generator::text_set::StrSet;

fn set(items: &[&str]) -> StrSet {
    StrSet::from_vec(items.iter().map(|s| s.to_string()).collect())
}

#[test]
fn set_keeps_first_occurrence_order() {
    let s = set(&["b", "a", "b"]);
    assert_eq!(s.len(), 2);
    assert!(s.contains("a"));
    assert!(!s.contains("c"));
    assert_eq!(s.to_vec(), vec!["b", "a"]);
    assert_eq!(s.get(1), "a");
}

#[test]
fn set_operations() {
    let mut a = set(&["x", "y"]);
    assert!(!a.insert("x".to_string()));
    assert!(a.insert("z".to_string()));
    a.extend(&set(&["w", "y", "v"]));
    assert_eq!(a.to_vec(), vec!["x", "y", "z", "w", "v"]);
    assert_eq!(a.difference(&set(&["y", "v", "q"])).to_vec(), vec!["x", "z", "w"]);
    assert!(set(&["x"]).is_subset(&a));
    assert!(!a.is_subset(&set(&["x"])));
    assert_eq!(set(&["p", "q"]), set(&["q", "p"]));
    assert_ne!(set(&["p", "q"]), set(&["p"]));
    let before = a.clone();
    a.extend(&before);
    assert_eq!(a.to_vec(), before.to_vec());
    assert!(StrSet::new().is_empty());
    assert!(StrSet::default().is_empty());
}

#[test]
fn map_operations() {
    let mut m: StrMap<String> = StrMap::new();
    assert!(m.is_empty());
    m.insert("k1".to_string(), "v1".to_string());
    m.insert("k2".to_string(), "v2".to_string());
    m.insert("k1".to_string(), "v3".to_string());
    assert_eq!(m.len(), 2);
    assert_eq!(m.key_at(0), "k1");
    assert_eq!(m.value_at(0), "v3");
    assert_eq!(m.index_of("k2"), Some(1));
    assert_eq!(m.index_of("k9"), None);
    assert!(m.contains_key("k2"));
    assert_eq!(m.get("k9"), None);
    m.set_value_at(1, "v4".to_string());
    assert_eq!(m.get("k2"), Some(&"v4".to_string()));
    assert_eq!(m.keys().to_vec(), vec!["k1", "k2"]);
    assert_eq!(m.values(), vec!["v3", "v4"]);

    let mut other: StrMap<String> = StrMap::new();
    other.insert("k0".to_string(), "o0".to_string());
    other.insert("k1".to_string(), "o1".to_string());
    m.extend_absent(&other);
    assert_eq!(m.keys().to_vec(), vec!["k1", "k2", "k0"]);
    assert_eq!(m.get("k1"), Some(&"v3".to_string()));
    assert_eq!(m.get("k0"), Some(&"o0".to_string()));

    let collected = StrMap::from_entries(&vec![
        ("a".to_string(), "1".to_string()),
        ("b".to_string(), "2".to_string()),
        ("a".to_string(), "3".to_string()),
    ]);
    assert_eq!(collected.keys().to_vec(), vec!["a", "b"]);
    assert_eq!(collected.get("a"), Some(&"3".to_string()));
}

#[test]
fn lines_of_a_text() {
    assert_eq!(split_newline_text(""), vec![""]);
    assert_eq!(split_newline_text("abc"), vec!["abc"]);
    assert_eq!(split_newline_text("a\nb"), vec!["a", "b"]);
    assert_eq!(split_newline_text("a\n"), vec!["a", ""]);
    assert_eq!(split_newline_text("\n\nx"), vec!["", "", "x"]);
    assert_eq!(split_newline_text("é\nü"), vec!["é", "ü"]);
    assert!(str_eq("same", "same"));
    assert!(!str_eq("same", "other"));
}

#[test]
fn command_line() {
    let cli = Cli { debug: false, command: None };
    let cmd = cli.command();
    assert_eq!(cmd, Command::Validate(Args { local: false, global: false }));
    assert_eq!(cmd, Command::default());
    assert!(cli.dry_run(&cmd));
    assert!(!cli.is_local(&cmd));
    assert!(!cli.is_global(&cmd));

    let generate = Command::Generate(Args { local: true, global: false });
    let cli = Cli { debug: true, command: Some(generate) };
    assert_eq!(cli.command(), generate);
    assert!(!cli.dry_run(&generate));
    assert!(cli.is_local(&generate));
    assert!(!cli.is_global(&generate));
    let validate = Command::Validate(Args { local: false, global: true });
    assert!(cli.is_global(&validate));
    assert!(!cli.is_local(&Command::Migrate));
    assert!(!cli.is_global(&Command::Version));
    assert!(!cli.dry_run(&Command::Version));

    assert_eq!(cli.config(None), None);
    assert_eq!(
        cli.config(Some("/home/me")),
        Some(("/home/me".to_string(), "/home/me/.kiro/generators/kg.toml".to_string()))
    );
    assert_eq!(Args::default(), Args { local: false, global: false });
}

#[test]
fn sources_with_their_text() {
    assert_eq!(AgentSource::Raw("x".to_string()).to_string(), "raw");
    assert_eq!(AgentSource::GlobalInline("x".to_string()).to_string(), "global-inline");
    assert_eq!(AgentSource::LocalInline("x".to_string()).to_string(), "local-inline");
    assert_eq!(AgentSource::LocalFile("a/b.toml".to_string()).to_string(), "file://a/b.toml");
    assert_eq!(AgentSource::GlobalFile("/g.toml".to_string()).to_string(), "file:///g.toml");

    let (source, empty) = AgentSource::new_local_agent("dev", "");
    assert_eq!(source, AgentSource::LocalFile(".kiro/generators/dev.toml".to_string()));
    assert!(empty);
    let (_, empty) = AgentSource::new_local_agent("dev", "x = 1");
    assert!(!empty);

    assert_eq!(AgentSource::LocalInline("a = 1".to_string()).to_source(None), "a = 1");
    assert_eq!(AgentSource::Raw("r".to_string()).to_source(Some("ignored")), "r");
    assert_eq!(source.to_source(Some("from file")), "from file");
    assert_eq!(source.to_source(None), "");
    assert!(source.is_blank(None));
    assert!(!source.is_blank(Some("")));
    assert!(AgentSource::GlobalInline(String::new()).is_blank(None));
    assert!(!AgentSource::GlobalInline("x".to_string()).is_blank(None));
    assert!(!AgentSource::Raw(String::new()).is_blank(None));
}

#[test]
fn sources_by_name() {
    let mut sources = KdlSources::from_names(&set(&["a", "b"]));
    assert_eq!(sources.0.len(), 2);
    assert_eq!(sources.get("a").unwrap().len(), 0);
    assert!(!sources.is_local("a"));
    sources.add("c");
    assert_eq!(sources.0.keys().to_vec(), vec!["a", "b", "c"]);
}
