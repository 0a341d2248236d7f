use vstd::prelude::*;
use crate::config::agent::{KdlAgent, KdlAgentView};
use crate::config::hook::{lemma_merge_hook_parts_idempotent, merge_hook_parts};
use crate::config::native::{lemma_merge_native_idempotent, merge_native};
use crate::config::tool_setting::setting_views;
use crate::text::{first_flag, first_text, or_else};
use crate::text_map::{
    assoc_distinct, assoc_get, assoc_has, assoc_map, assoc_union, lemma_assoc_union,
    lemma_assoc_union_idempotent, lemma_assoc_union_map,
};
use crate::text_set::{
    lemma_union, lemma_union_associative, lemma_union_idempotent, seq_union,
};

verus! {

/// The draft that two sources of different precedence give together.
///
/// - A field that a source may leave undecided is that of `higher` where `higher`
///   decides it, else that of `lower`.
/// - Parents, resources, tool patterns and allowed tools are united.
/// - Aliases and servers are united by name; where both have a name, the entry of
///   `higher` stays.
/// - Permissions and hooks are merged by their own rules.
/// - The tool settings of `lower` follow those of `higher`.
/// - The name is that of `higher`.
pub open spec fn merge_drafts(higher: KdlAgentView, lower: KdlAgentView) -> KdlAgentView {
    KdlAgentView {
        name: higher.name,
        template: or_else(higher.template, lower.template),
        description: or_else(higher.description, lower.description),
        inherits: seq_union(higher.inherits, lower.inherits),
        prompt: or_else(higher.prompt, lower.prompt),
        resources: seq_union(higher.resources, lower.resources),
        include_mcp_json: or_else(higher.include_mcp_json, lower.include_mcp_json),
        tools: seq_union(higher.tools, lower.tools),
        allowed_tools: seq_union(higher.allowed_tools, lower.allowed_tools),
        model: or_else(higher.model, lower.model),
        hook: merge_hook_parts(higher.hook, lower.hook),
        mcp: assoc_union(higher.mcp, lower.mcp),
        alias: assoc_union(higher.alias, lower.alias),
        native_tool: merge_native(higher.native_tool, lower.native_tool),
        tool_setting: higher.tool_setting + lower.tool_setting,
    }
}

/// Merging a draft with itself changes none of its fields but the list of tool
/// settings, which is not a set: it then holds every setting twice.
pub proof fn lemma_merge_idempotent(a: KdlAgentView)
    requires
        a.hook.distinct(),
    ensures
        merge_drafts(a, a) == (KdlAgentView { tool_setting: a.tool_setting + a.tool_setting, ..a }),
        a.tool_setting.len() == 0 ==> merge_drafts(a, a) == a,
{
    lemma_union_idempotent(a.inherits);
    lemma_union_idempotent(a.resources);
    lemma_union_idempotent(a.tools);
    lemma_union_idempotent(a.allowed_tools);
    lemma_assoc_union_idempotent(a.mcp);
    lemma_assoc_union_idempotent(a.alias);
    lemma_merge_native_idempotent(a.native_tool);
    lemma_merge_hook_parts_idempotent(a.hook);
    if a.tool_setting.len() == 0 {
        assert(a.tool_setting + a.tool_setting =~= a.tool_setting);
    }
}

/// Every set of a merged draft holds exactly what the set of either source holds.
pub proof fn lemma_merge_unites(higher: KdlAgentView, lower: KdlAgentView)
    ensures
        merge_drafts(higher, lower).resources.to_set() == higher.resources.to_set().union(
            lower.resources.to_set(),
        ),
        merge_drafts(higher, lower).tools.to_set() == higher.tools.to_set().union(
            lower.tools.to_set(),
        ),
        merge_drafts(higher, lower).allowed_tools.to_set() == higher.allowed_tools.to_set().union(
            lower.allowed_tools.to_set(),
        ),
        merge_drafts(higher, lower).inherits.to_set() == higher.inherits.to_set().union(
            lower.inherits.to_set(),
        ),
        higher.resources.to_set().subset_of(merge_drafts(higher, lower).resources.to_set()),
        lower.resources.to_set().subset_of(merge_drafts(higher, lower).resources.to_set()),
{
    lemma_union(higher.resources, lower.resources);
    lemma_union(higher.tools, lower.tools);
    lemma_union(higher.allowed_tools, lower.allowed_tools);
    lemma_union(higher.inherits, lower.inherits);
}

/// The aliases and the servers of a merged draft have the names of either source,
/// and a name that both have keeps the entry of the higher source.
pub proof fn lemma_merge_maps(higher: KdlAgentView, lower: KdlAgentView, name: Seq<char>)
    requires
        assoc_distinct(higher.alias),
        assoc_distinct(lower.alias),
        assoc_distinct(higher.mcp),
        assoc_distinct(lower.mcp),
    ensures
        assoc_has(merge_drafts(higher, lower).alias, name) <==> assoc_has(higher.alias, name)
            || assoc_has(lower.alias, name),
        assoc_get(merge_drafts(higher, lower).alias, name) == if assoc_has(higher.alias, name) {
            assoc_get(higher.alias, name)
        } else {
            assoc_get(lower.alias, name)
        },
        assoc_has(merge_drafts(higher, lower).mcp, name) <==> assoc_has(higher.mcp, name)
            || assoc_has(lower.mcp, name),
        assoc_get(merge_drafts(higher, lower).mcp, name) == if assoc_has(higher.mcp, name) {
            assoc_get(higher.mcp, name)
        } else {
            assoc_get(lower.mcp, name)
        },
        assoc_map(merge_drafts(higher, lower).alias) == assoc_map(lower.alias).union_prefer_right(
            assoc_map(higher.alias),
        ),
        assoc_map(merge_drafts(higher, lower).mcp) == assoc_map(lower.mcp).union_prefer_right(
            assoc_map(higher.mcp),
        ),
{
    lemma_assoc_union(higher.alias, lower.alias);
    lemma_assoc_union(higher.mcp, lower.mcp);
    lemma_assoc_union_map(higher.alias, lower.alias);
    lemma_assoc_union_map(higher.mcp, lower.mcp);
}

/// On the sets and on the fields that a source may leave undecided, merging three
/// sources gives the same whichever two are merged first.
pub proof fn lemma_merge_associative(a: KdlAgentView, b: KdlAgentView, c: KdlAgentView)
    ensures
        ({
            let left = merge_drafts(merge_drafts(a, b), c);
            let right = merge_drafts(a, merge_drafts(b, c));
            &&& left.name == right.name
            &&& left.template == right.template
            &&& left.description == right.description
            &&& left.prompt == right.prompt
            &&& left.model == right.model
            &&& left.include_mcp_json == right.include_mcp_json
            &&& left.inherits == right.inherits
            &&& left.resources == right.resources
            &&& left.tools == right.tools
            &&& left.allowed_tools == right.allowed_tools
            &&& left.tool_setting == right.tool_setting
        }),
{
    lemma_union_associative(a.inherits, b.inherits, c.inherits);
    lemma_union_associative(a.resources, b.resources, c.resources);
    lemma_union_associative(a.tools, b.tools, c.tools);
    lemma_union_associative(a.allowed_tools, b.allowed_tools, c.allowed_tools);
    assert((a.tool_setting + b.tool_setting) + c.tool_setting =~= a.tool_setting + (
    b.tool_setting + c.tool_setting));
}

/// A field that the higher source decides is not changed by the lower one.
pub proof fn lemma_higher_wins(higher: KdlAgentView, lower: KdlAgentView)
    ensures
        higher.description is Some ==> merge_drafts(higher, lower).description
            == higher.description,
        higher.prompt is Some ==> merge_drafts(higher, lower).prompt == higher.prompt,
        higher.model is Some ==> merge_drafts(higher, lower).model == higher.model,
        higher.template is Some ==> merge_drafts(higher, lower).template == higher.template,
        higher.include_mcp_json is Some ==> merge_drafts(higher, lower).include_mcp_json
            == higher.include_mcp_json,
        higher.description is None ==> merge_drafts(higher, lower).description
            == lower.description,
{
}

impl KdlAgent {
    /// The draft that `self`, as the source of higher precedence, and `other` give
    /// together.
    pub fn merge(self, other: KdlAgent) -> (merged: KdlAgent)
        ensures
            merged@ == merge_drafts(self@, other@),
    {
        let mut other = other;
        let mut inherits = self.inherits;
        inherits.extend(&other.inherits);
        let mut resources = self.resources;
        resources.extend(&other.resources);
        let mut tools = self.tools;
        tools.extend(&other.tools);
        let mut allowed_tools = self.allowed_tools;
        allowed_tools.extend(&other.allowed_tools);
        let mut mcp = self.mcp;
        mcp.extend_absent(&other.mcp);
        let mut alias = self.alias;
        alias.extend_absent(&other.alias);
        let mut tool_setting = self.tool_setting;
        let ghost mine = setting_views(tool_setting@);
        let ghost theirs = setting_views(other.tool_setting@);
        tool_setting.append(&mut other.tool_setting);
        proof {
            assert(setting_views(tool_setting@) =~= mine + theirs);
        }
        KdlAgent {
            name: self.name,
            template: first_flag(self.template, other.template),
            description: first_text(self.description, other.description),
            inherits,
            prompt: first_text(self.prompt, other.prompt),
            resources,
            include_mcp_json: first_flag(self.include_mcp_json, other.include_mcp_json),
            tools,
            allowed_tools,
            model: first_text(self.model, other.model),
            hook: self.hook.merge(other.hook),
            mcp,
            alias,
            native_tool: self.native_tool.merge(other.native_tool),
            tool_setting,
        }
    }
}

} // verus!
