use kiro_generator::agent::{Hook, HookTrigger};
use kiro_generator::config::hook::{collect_hooks, merge_hooks, HookDoc, HookEntryDoc};
use kiro_generator::config::HookPart;
use kiro_generator::text_map::StrMap;

fn rando(kind: &str, value: u64) -> (String, Hook) {
    (
        format!("{kind}-{value}"),
        Hook {
            command: format!("{value}"),
            timeout_ms: value,
            max_output_size: 0,
            cache_ttl_seconds: value,
            matcher: Some(format!("{value}")),
        },
    )
}

fn one(kind: &str, value: u64) -> StrMap<Hook> {
    let (name, hook) = rando(kind, value);
    let mut map = StrMap::new();
    map.insert(name, hook);
    map
}

fn randomize(value: u64) -> HookPart {
    HookPart {
        agent_spawn: one("HookAgentSpawn", value),
        user_prompt_submit: one("HookUserPromptSubmit", value),
        pre_tool_use: one("HookPreToolUse", value),
        post_tool_use: one("HookPostToolUse", value),
        stop: one("HookStop", value),
    }
}

#[test]
fn test_hooks_empty() {
    let child = HookPart::default();
    let parent = HookPart::default();
    let merged = child.merge(parent);

    assert!(merged.agent_spawn.is_empty());
    assert!(merged.user_prompt_submit.is_empty());
    assert!(merged.pre_tool_use.is_empty());
    assert!(merged.post_tool_use.is_empty());
    assert!(merged.stop.is_empty());
}

#[test]
fn test_hooks_empty_child() {
    let child = HookPart::default();
    let parent = randomize(1700000000);
    let before = parent.clone();
    let merged = child.merge(parent);

    assert_eq!(merged, before);
}

#[test]
fn test_hooks_no_merge() {
    let child = randomize(1700000000);
    let parent = randomize(1700000000);
    let before = child.clone();
    let merged = child.merge(parent);
    assert_eq!(merged, before);
}

#[test]
fn test_hooks_merge_parent() {
    let child = randomize(1700000000);
    let parent = randomize(1700000001);
    let merged = child.merge(parent);
    assert_eq!(merged.agent_spawn.len(), 2);
    assert_eq!(merged.user_prompt_submit.len(), 2);
    assert_eq!(merged.pre_tool_use.len(), 2);
    assert_eq!(merged.post_tool_use.len(), 2);
    assert_eq!(merged.stop.len(), 2);
}

#[test]
fn child_hook_takes_what_it_lacks_from_the_parent() {
    let mut child: StrMap<Hook> = StrMap::new();
    child.insert(
        "spawn".to_string(),
        Hook { command: "echo child".to_string(), ..Hook::default() },
    );
    let mut parent: StrMap<Hook> = StrMap::new();
    parent.insert("spawn".to_string(), Hook { timeout_ms: 1111, ..Hook::default() });

    let merged = merge_hooks(child, &parent);
    assert_eq!(merged.len(), 1);
    let hook = merged.get("spawn").unwrap();
    assert_eq!(hook.command, "echo child");
    assert_eq!(hook.timeout_ms, 1111);
    assert_eq!(hook.max_output_size, 0);
    assert_eq!(hook.cache_ttl_seconds, 0);
    assert_eq!(hook.matcher, None);
}

#[test]
fn hook_merge_prefers_every_field_that_is_set() {
    let higher = Hook {
        command: "mine".to_string(),
        timeout_ms: 0,
        max_output_size: 7,
        cache_ttl_seconds: 0,
        matcher: None,
    };
    let lower = Hook {
        command: "theirs".to_string(),
        timeout_ms: 30,
        max_output_size: 9,
        cache_ttl_seconds: 60,
        matcher: Some("git.*".to_string()),
    };
    let merged = higher.clone().merge(lower.clone());
    assert_eq!(
        merged,
        Hook {
            command: "mine".to_string(),
            timeout_ms: 30,
            max_output_size: 7,
            cache_ttl_seconds: 60,
            matcher: Some("git.*".to_string()),
        }
    );
    assert_eq!(lower.clone().merge(higher), lower);
    assert_eq!(merged.clone().merge(merged.clone()), merged);
}

#[test]
fn merged_hooks_keep_the_order_of_the_higher_layer() {
    let mut higher: StrMap<Hook> = StrMap::new();
    higher.insert("b".to_string(), Hook { command: "b".to_string(), ..Hook::default() });
    higher.insert("a".to_string(), Hook::default());
    let mut lower: StrMap<Hook> = StrMap::new();
    lower.insert("c".to_string(), Hook { command: "c".to_string(), ..Hook::default() });
    lower.insert("a".to_string(), Hook { command: "a-low".to_string(), ..Hook::default() });
    let merged = merge_hooks(higher, &lower);
    assert_eq!(merged.len(), 3);
    assert_eq!(merged.key_at(0), "b");
    assert_eq!(merged.key_at(1), "a");
    assert_eq!(merged.key_at(2), "c");
    assert_eq!(merged.value_at(1).command, "a-low");
}

#[test]
fn later_hook_of_a_name_replaces_the_earlier() {
    let docs = vec![
        HookEntryDoc { name: "x".to_string(), command: "one".to_string(), ..HookEntryDoc::default() },
        HookEntryDoc { name: "y".to_string(), command: "two".to_string(), ..HookEntryDoc::default() },
        HookEntryDoc {
            name: "x".to_string(),
            command: "three".to_string(),
            timeout_ms: 5,
            ..HookEntryDoc::default()
        },
    ];
    let hooks = collect_hooks(&docs);
    assert_eq!(hooks.len(), 2);
    assert_eq!(hooks.key_at(0), "x");
    assert_eq!(hooks.get("x").unwrap().command, "three");
    assert_eq!(hooks.get("x").unwrap().timeout_ms, 5);
    assert_eq!(hooks.get("y").unwrap().command, "two");
}

#[test]
fn triggers_lists_all_five_in_order() {
    let doc = HookDoc {
        stop: vec![HookEntryDoc {
            name: "stop".to_string(),
            command: "echo stopped".to_string(),
            ..HookEntryDoc::default()
        }],
        ..HookDoc::default()
    };
    let part = HookPart::from_doc(&doc);
    assert!(!part.is_empty());
    let table = part.triggers();
    assert_eq!(table.len(), 5);
    assert_eq!(table[0].0, HookTrigger::AgentSpawn);
    assert_eq!(table[1].0, HookTrigger::UserPromptSubmit);
    assert_eq!(table[2].0, HookTrigger::PreToolUse);
    assert_eq!(table[3].0, HookTrigger::PostToolUse);
    assert_eq!(table[4].0, HookTrigger::Stop);
    assert!(table[0].1.is_empty());
    assert_eq!(table[4].1.len(), 1);
    assert_eq!(table[4].1[0].command, "echo stopped");
    assert_eq!(HookTrigger::PreToolUse.name(), "preToolUse");
    assert_eq!(HookTrigger::all().len(), 5);
    assert!(HookPart::default().is_empty());
}
