use vstd::prelude::*;
use crate::agent::hook::{trigger_order, merge_hook, Hook, HookTrigger, HookView};
use crate::text::{copy_opt_text, opt_text, Duplicate};
use crate::text_map::{
    assoc_collect, assoc_distinct, assoc_get, assoc_has, assoc_union, lemma_assoc_union_absorbs,
    lemma_get, StrMap,
};

verus! {

/// One named hook, as a document gives it.
#[derive(Debug, Clone, PartialEq, Eq, Default)]
pub struct HookEntryDoc {
    pub name: String,
    pub command: String,
    pub timeout_ms: u64,
    pub max_output_size: usize,
    pub cache_ttl_seconds: u64,
    pub matcher: Option<String>,
}

/// The hooks of an agent, as a document gives them.
#[derive(Debug, Clone, PartialEq, Eq, Default)]
pub struct HookDoc {
    pub agent_spawn: Vec<HookEntryDoc>,
    pub user_prompt_submit: Vec<HookEntryDoc>,
    pub pre_tool_use: Vec<HookEntryDoc>,
    pub post_tool_use: Vec<HookEntryDoc>,
    pub stop: Vec<HookEntryDoc>,
}

/// The hooks of an agent: for each trigger, the hooks by name.
#[derive(Debug, Clone, PartialEq, Eq, Default)]
pub struct HookPart {
    pub agent_spawn: StrMap<Hook>,
    pub user_prompt_submit: StrMap<Hook>,
    pub pre_tool_use: StrMap<Hook>,
    pub post_tool_use: StrMap<Hook>,
    pub stop: StrMap<Hook>,
}

/// The named hooks of one trigger.
pub type HookMapView = Seq<(Seq<char>, HookView)>;

/// What the hooks of an agent hold.
pub struct HookPartView {
    pub agent_spawn: HookMapView,
    pub user_prompt_submit: HookMapView,
    pub pre_tool_use: HookMapView,
    pub post_tool_use: HookMapView,
    pub stop: HookMapView,
}

impl View for HookPart {
    type V = HookPartView;

    open spec fn view(&self) -> HookPartView {
        HookPartView {
            agent_spawn: self.agent_spawn@,
            user_prompt_submit: self.user_prompt_submit@,
            pre_tool_use: self.pre_tool_use@,
            post_tool_use: self.post_tool_use@,
            stop: self.stop@,
        }
    }
}

impl HookPartView {
    /// The named hooks of a trigger.
    pub open spec fn of(self, trigger: HookTrigger) -> HookMapView {
        match trigger {
            HookTrigger::AgentSpawn => self.agent_spawn,
            HookTrigger::UserPromptSubmit => self.user_prompt_submit,
            HookTrigger::PreToolUse => self.pre_tool_use,
            HookTrigger::PostToolUse => self.post_tool_use,
            HookTrigger::Stop => self.stop,
        }
    }

    /// No trigger has two hooks of one name.
    pub open spec fn distinct(self) -> bool {
        &&& assoc_distinct(self.agent_spawn)
        &&& assoc_distinct(self.user_prompt_submit)
        &&& assoc_distinct(self.pre_tool_use)
        &&& assoc_distinct(self.post_tool_use)
        &&& assoc_distinct(self.stop)
    }
}

/// A hook of the higher layer, with the fields it leaves unset filled from the hook
/// of the same name of the lower layer, if there is one.
pub open spec fn fill_hook(entry: (Seq<char>, HookView), lower: HookMapView) -> (
    Seq<char>,
    HookView,
) {
    match assoc_get(lower, entry.0) {
        Some(o) => (entry.0, merge_hook(entry.1, o)),
        None => entry,
    }
}

/// The hooks that two layers give a trigger: every hook of `higher`, filled from the
/// hook of the same name of `lower`; then the hooks of `lower` whose names `higher`
/// lacks.
pub open spec fn merge_hook_maps(higher: HookMapView, lower: HookMapView) -> HookMapView {
    assoc_union(higher.map_values(|e: (Seq<char>, HookView)| fill_hook(e, lower)), lower)
}

/// The hooks that two layers give, trigger by trigger.
pub open spec fn merge_hook_parts(higher: HookPartView, lower: HookPartView) -> HookPartView {
    HookPartView {
        agent_spawn: merge_hook_maps(higher.agent_spawn, lower.agent_spawn),
        user_prompt_submit: merge_hook_maps(higher.user_prompt_submit, lower.user_prompt_submit),
        pre_tool_use: merge_hook_maps(higher.pre_tool_use, lower.pre_tool_use),
        post_tool_use: merge_hook_maps(higher.post_tool_use, lower.post_tool_use),
        stop: merge_hook_maps(higher.stop, lower.stop),
    }
}

/// Merging the hooks of a trigger with themselves changes nothing.
pub proof fn lemma_merge_hook_maps_idempotent(m: HookMapView)
    requires
        assoc_distinct(m),
    ensures
        merge_hook_maps(m, m) == m,
{
    let filled = m.map_values(|e: (Seq<char>, HookView)| fill_hook(e, m));
    assert forall|i: int| 0 <= i < m.len() implies filled[i] == m[i] by {
        lemma_get(m, m[i].0);
    }
    assert(filled =~= m);
    lemma_assoc_union_absorbs(m, m);
}

/// What two layers give a hook name: the hook filled from the lower layer where both
/// have the name, else the hook of the one layer that has it.
pub open spec fn merged_hook(higher: Option<HookView>, lower: Option<HookView>) -> Option<HookView> {
    match (higher, lower) {
        (Some(a), Some(b)) => Some(merge_hook(a, b)),
        (Some(a), None) => Some(a),
        (None, b) => b,
    }
}

/// The merged hooks of a trigger have the names of either layer, and each name has
/// the hook that `merged_hook` gives.
pub proof fn lemma_merge_hook_maps_entry(higher: HookMapView, lower: HookMapView, name: Seq<char>)
    requires
        assoc_distinct(higher),
        assoc_distinct(lower),
    ensures
        assoc_distinct(merge_hook_maps(higher, lower)),
        assoc_has(merge_hook_maps(higher, lower), name) <==> assoc_has(higher, name) || assoc_has(
            lower,
            name,
        ),
        assoc_get(merge_hook_maps(higher, lower), name) == merged_hook(
            assoc_get(higher, name),
            assoc_get(lower, name),
        ),
{
    let filled = higher.map_values(|e: (Seq<char>, HookView)| fill_hook(e, lower));
    assert forall|i: int| 0 <= i < higher.len() implies (#[trigger] filled[i]).0 == higher[i].0 by {}
    assert(assoc_distinct(filled)) by {
        assert forall|i: int, j: int| 0 <= i < j < filled.len() implies (#[trigger] filled[i]).0 != (
        #[trigger] filled[j]).0 by {
            assert(higher[i].0 != higher[j].0);
        }
    }
    assert(assoc_has(filled, name) <==> assoc_has(higher, name)) by {
        if assoc_has(filled, name) {
            let i = choose|i: int| 0 <= i < filled.len() && (#[trigger] filled[i]).0 == name;
            assert(higher[i].0 == name);
        }
        if assoc_has(higher, name) {
            let i = choose|i: int| 0 <= i < higher.len() && (#[trigger] higher[i]).0 == name;
            assert(filled[i].0 == name);
        }
    }
    lemma_get(filled, name);
    lemma_get(higher, name);
    lemma_get(lower, name);
    if assoc_has(higher, name) {
        let i = choose|i: int| 0 <= i < higher.len() && (#[trigger] higher[i]).0 == name;
        assert(filled[i].0 == name);
        assert(assoc_get(filled, name) == Some(filled[i].1));
        assert(assoc_get(higher, name) == Some(higher[i].1));
    }
    crate::text_map::lemma_assoc_union(filled, lower);
}

/// Merging the hooks of an agent with themselves changes nothing.
pub proof fn lemma_merge_hook_parts_idempotent(p: HookPartView)
    requires
        p.distinct(),
    ensures
        merge_hook_parts(p, p) == p,
{
    lemma_merge_hook_maps_idempotent(p.agent_spawn);
    lemma_merge_hook_maps_idempotent(p.user_prompt_submit);
    lemma_merge_hook_maps_idempotent(p.pre_tool_use);
    lemma_merge_hook_maps_idempotent(p.post_tool_use);
    lemma_merge_hook_maps_idempotent(p.stop);
}

/// The hooks that two layers give a trigger.
pub fn merge_hooks(higher: StrMap<Hook>, lower: &StrMap<Hook>) -> (merged: StrMap<Hook>)
    ensures
        merged@ == merge_hook_maps(higher@, lower@),
{
    let mut out = higher;
    let n = out.len();
    let mut i: usize = 0;
    while i < n
        invariant
            i <= n,
            n == higher@.len(),
            out@.len() == n,
            forall|j: int| 0 <= j < i ==> #[trigger] out@[j] == fill_hook(higher@[j], lower@),
            forall|j: int| i <= j < n ==> #[trigger] out@[j] == higher@[j],
        decreases n - i,
    {
        let found = lower.get(out.key_at(i).as_str());
        match found {
            Some(o) => {
                let filled = out.value_at(i).duplicate().merge(o.duplicate());
                out.set_value_at(i, filled);
            },
            None => {},
        }
        i += 1;
    }
    proof {
        assert(out@ =~= higher@.map_values(|e: (Seq<char>, HookView)| fill_hook(e, lower@)));
    }
    out.extend_absent(lower);
    out
}

/// What a document says of one hook.
pub open spec fn hook_of(doc: HookEntryDoc) -> (Seq<char>, HookView) {
    (
        doc.name@,
        HookView {
            command: doc.command@,
            timeout_ms: doc.timeout_ms,
            max_output_size: doc.max_output_size,
            cache_ttl_seconds: doc.cache_ttl_seconds,
            matcher: opt_text(doc.matcher),
        },
    )
}

/// The hooks that a document gives a trigger, by name: of two hooks with one name
/// the later one stays, at the place of the earlier.
pub open spec fn hooks_of(docs: Seq<HookEntryDoc>) -> HookMapView {
    assoc_collect(docs.map_values(|d: HookEntryDoc| hook_of(d)))
}

/// The hooks that a document gives a trigger, by name.
pub fn collect_hooks(docs: &Vec<HookEntryDoc>) -> (hooks: StrMap<Hook>)
    ensures
        hooks@ == hooks_of(docs@),
{
    let ghost entries = docs@.map_values(|d: HookEntryDoc| hook_of(d));
    let mut hooks: StrMap<Hook> = StrMap::new();
    let mut i: usize = 0;
    while i < docs.len()
        invariant
            i <= docs.len(),
            entries == docs@.map_values(|d: HookEntryDoc| hook_of(d)),
            hooks@ == assoc_collect(entries.take(i as int)),
        decreases docs.len() - i,
    {
        proof {
            let step = entries.take(i as int + 1);
            assert(step.drop_last() =~= entries.take(i as int));
            assert(step.last() == hook_of(docs@[i as int]));
        }
        let d = &docs[i];
        let hook = Hook {
            command: d.command.clone(),
            timeout_ms: d.timeout_ms,
            max_output_size: d.max_output_size,
            cache_ttl_seconds: d.cache_ttl_seconds,
            matcher: copy_opt_text(&d.matcher),
        };
        hooks.insert(d.name.clone(), hook);
        i += 1;
    }
    proof {
        assert(entries.take(docs.len() as int) =~= entries);
    }
    hooks
}

/// The hooks that a document gives, trigger by trigger.
pub open spec fn hook_part_of(doc: HookDoc) -> HookPartView {
    HookPartView {
        agent_spawn: hooks_of(doc.agent_spawn@),
        user_prompt_submit: hooks_of(doc.user_prompt_submit@),
        pre_tool_use: hooks_of(doc.pre_tool_use@),
        post_tool_use: hooks_of(doc.post_tool_use@),
        stop: hooks_of(doc.stop@),
    }
}

/// The views of a list of hooks.
pub open spec fn hook_views(hooks: Seq<Hook>) -> Seq<HookView> {
    hooks.map_values(|h: Hook| h@)
}

/// The hooks of a list of named hooks, without the names.
pub open spec fn unnamed(hooks: HookMapView) -> Seq<HookView> {
    hooks.map_values(|e: (Seq<char>, HookView)| e.1)
}

impl HookPart {
    /// The hooks that a document gives.
    pub fn from_doc(doc: &HookDoc) -> (part: HookPart)
        ensures
            part@ == hook_part_of(*doc),
    {
        HookPart {
            agent_spawn: collect_hooks(&doc.agent_spawn),
            user_prompt_submit: collect_hooks(&doc.user_prompt_submit),
            pre_tool_use: collect_hooks(&doc.pre_tool_use),
            post_tool_use: collect_hooks(&doc.post_tool_use),
            stop: collect_hooks(&doc.stop),
        }
    }

    /// The hooks that `self`, as the higher layer, and `other` give together.
    pub fn merge(self, other: HookPart) -> (merged: HookPart)
        ensures
            merged@ == merge_hook_parts(self@, other@),
    {
        HookPart {
            agent_spawn: merge_hooks(self.agent_spawn, &other.agent_spawn),
            user_prompt_submit: merge_hooks(self.user_prompt_submit, &other.user_prompt_submit),
            pre_tool_use: merge_hooks(self.pre_tool_use, &other.pre_tool_use),
            post_tool_use: merge_hooks(self.post_tool_use, &other.post_tool_use),
            stop: merge_hooks(self.stop, &other.stop),
        }
    }

    /// The named hooks of a trigger.
    pub fn of(&self, trigger: HookTrigger) -> (hooks: &StrMap<Hook>)
        ensures
            hooks@ == self@.of(trigger),
    {
        match trigger {
            HookTrigger::AgentSpawn => &self.agent_spawn,
            HookTrigger::UserPromptSubmit => &self.user_prompt_submit,
            HookTrigger::PreToolUse => &self.pre_tool_use,
            HookTrigger::PostToolUse => &self.post_tool_use,
            HookTrigger::Stop => &self.stop,
        }
    }

    /// Whether no trigger has a hook.
    pub fn is_empty(&self) -> (b: bool)
        ensures
            b == (forall|t: HookTrigger| (#[trigger] self@.of(t)).len() == 0),
    {
        let b = self.agent_spawn.is_empty() && self.user_prompt_submit.is_empty()
            && self.pre_tool_use.is_empty() && self.post_tool_use.is_empty()
            && self.stop.is_empty();
        proof {
            if !b {
                assert(self@.of(HookTrigger::AgentSpawn).len() != 0 || self@.of(
                    HookTrigger::UserPromptSubmit,
                ).len() != 0 || self@.of(HookTrigger::PreToolUse).len() != 0 || self@.of(
                    HookTrigger::PostToolUse,
                ).len() != 0 || self@.of(HookTrigger::Stop).len() != 0);
            }
        }
        b
    }

    /// For each of the five triggers, in their fixed order, the hooks of that
    /// trigger in the order of their names.
    pub fn triggers(&self) -> (table: Vec<(HookTrigger, Vec<Hook>)>)
        ensures
            table@.len() == 5,
            forall|i: int|
                0 <= i < 5 ==> (#[trigger] table@[i]).0 == trigger_order()[i] && hook_views(
                    table@[i].1@,
                ) == unnamed(self@.of(trigger_order()[i])),
    {
        let order = HookTrigger::all();
        let mut table: Vec<(HookTrigger, Vec<Hook>)> = Vec::new();
        let mut i: usize = 0;
        while i < 5
            invariant
                i <= 5,
                order@ == trigger_order(),
                table@.len() == i,
                forall|j: int|
                    0 <= j < i ==> (#[trigger] table@[j]).0 == trigger_order()[j] && hook_views(
                        table@[j].1@,
                    ) == unnamed(self@.of(trigger_order()[j])),
            decreases 5 - i,
        {
            let t = order[i];
            let hooks = self.of(t).values();
            proof {
                assert(hook_views(hooks@) =~= unnamed(self@.of(t)));
            }
            table.push((t, hooks));
            i += 1;
        }
        table
    }
}

impl Duplicate for HookPart {
    fn duplicate(&self) -> (copy: HookPart) {
        HookPart {
            agent_spawn: self.agent_spawn.duplicate(),
            user_prompt_submit: self.user_prompt_submit.duplicate(),
            pre_tool_use: self.pre_tool_use.duplicate(),
            post_tool_use: self.post_tool_use.duplicate(),
            stop: self.stop.duplicate(),
        }
    }
}

} // verus!
