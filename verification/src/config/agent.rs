use vstd::prelude::*;
use crate::agent::custom_tool::{CustomToolConfig, CustomToolConfigView};
use crate::config::hook::{HookDoc, HookPart, HookPartView};
use crate::config::mcp::CustomToolConfigKdl;
use crate::config::native::{
    AwsTool, ExecuteShellTool, NativeTools, NativeToolsDoc, NativeToolsView, ReadTool, WriteTool,
};
use crate::config::tool_setting::{
    collect_tool_settings, collected_settings, collected_view, setting_views, ToolSetting,
};
use crate::error::ConfigError;
use crate::text::{copy_opt_text, copy_texts, opt_text, texts, Duplicate};
use crate::text_map::{assoc_collect, StrMap};
use crate::text_set::{seq_dedup, StrSet};

verus! {

/// The parents of an agent, as a document names them.
#[derive(Debug, Clone, PartialEq, Eq, Default)]
pub struct Inherits {
    pub parents: Vec<String>,
}

/// The tool patterns of an agent, as a document gives them.
#[derive(Debug, Clone, PartialEq, Eq, Default)]
pub struct Tools {
    pub tools: Vec<String>,
}

/// The tools an agent may use unasked, as a document gives them.
#[derive(Debug, Clone, PartialEq, Eq, Default)]
pub struct AllowedTools {
    pub allowed: Vec<String>,
}

/// A resource of an agent, as a document gives it.
#[derive(Debug, Clone, PartialEq, Eq, Hash, Default)]
pub struct Resource {
    pub location: String,
}

/// Another name for a tool, as a document gives it.
#[derive(Debug, Clone, PartialEq, Eq, PartialOrd, Ord, Hash, Default)]
pub struct ToolAliasKdl {
    pub from: String,
    pub to: String,
}

/// The description of an agent, as a document gives it.
#[derive(Debug, Clone, PartialEq, Eq, Default)]
pub struct Description {
    pub value: String,
}

/// The prompt of an agent, as a document gives it.
#[derive(Debug, Clone, PartialEq, Eq, Default)]
pub struct Prompt {
    pub value: String,
}

/// The model of an agent, as a document gives it.
#[derive(Debug, Clone, PartialEq, Eq)]
pub struct Model {
    pub value: String,
}

/// One agent, as a document declares it.
#[derive(Debug, Clone, PartialEq, Eq, Default)]
pub struct KdlAgentDoc {
    pub name: String,
    pub template: Option<bool>,
    pub description: Option<Description>,
    pub inherits: Inherits,
    pub prompt: Option<Prompt>,
    pub resources: Vec<Resource>,
    pub include_mcp_json: Option<bool>,
    pub tools: Option<Tools>,
    pub allowed_tools: Option<AllowedTools>,
    pub model: Option<Model>,
    pub hook: Option<HookDoc>,
    pub mcp: Vec<CustomToolConfigKdl>,
    pub alias: Vec<ToolAliasKdl>,
    pub native_tool: NativeToolsDoc,
    pub tool_setting: Vec<ToolSetting>,
}

/// The draft of one agent: what one source, or several merged sources, say of it.
/// A field that is `None` has not been decided by any of them.
#[derive(Debug, Clone, Default)]
pub struct KdlAgent {
    pub name: String,
    pub template: Option<bool>,
    pub description: Option<String>,
    pub inherits: StrSet,
    pub prompt: Option<String>,
    pub resources: StrSet,
    pub include_mcp_json: Option<bool>,
    pub tools: StrSet,
    pub allowed_tools: StrSet,
    pub model: Option<String>,
    pub hook: HookPart,
    pub mcp: StrMap<CustomToolConfig>,
    pub alias: StrMap<String>,
    pub native_tool: NativeTools,
    pub tool_setting: Vec<ToolSetting>,
}

/// What a draft holds.
pub struct KdlAgentView {
    pub name: Seq<char>,
    pub template: Option<bool>,
    pub description: Option<Seq<char>>,
    pub inherits: Seq<Seq<char>>,
    pub prompt: Option<Seq<char>>,
    pub resources: Seq<Seq<char>>,
    pub include_mcp_json: Option<bool>,
    pub tools: Seq<Seq<char>>,
    pub allowed_tools: Seq<Seq<char>>,
    pub model: Option<Seq<char>>,
    pub hook: HookPartView,
    pub mcp: Seq<(Seq<char>, CustomToolConfigView)>,
    pub alias: Seq<(Seq<char>, Seq<char>)>,
    pub native_tool: NativeToolsView,
    pub tool_setting: Seq<(Seq<char>, Seq<char>)>,
}

impl View for KdlAgent {
    type V = KdlAgentView;

    open spec fn view(&self) -> KdlAgentView {
        KdlAgentView {
            name: self.name@,
            template: self.template,
            description: opt_text(self.description),
            inherits: self.inherits@,
            prompt: opt_text(self.prompt),
            resources: self.resources@,
            include_mcp_json: self.include_mcp_json,
            tools: self.tools@,
            allowed_tools: self.allowed_tools@,
            model: opt_text(self.model),
            hook: self.hook@,
            mcp: self.mcp@,
            alias: self.alias@,
            native_tool: self.native_tool@,
            tool_setting: setting_views(self.tool_setting@),
        }
    }
}

/// The permissions of a category about which nothing is said.
pub open spec fn no_permissions() -> crate::config::native::PermissionSetView {
    crate::config::native::PermissionSetView {
        allow: Seq::empty(),
        deny: Seq::empty(),
        overrides: Seq::empty(),
        deny_by_default: None,
        disable_auto_readonly: None,
    }
}

/// The draft of the agent `name` of which nothing else is known.
pub open spec fn blank_draft(name: Seq<char>) -> KdlAgentView {
    KdlAgentView {
        name,
        template: None,
        description: None,
        inherits: Seq::empty(),
        prompt: None,
        resources: Seq::empty(),
        include_mcp_json: None,
        tools: Seq::empty(),
        allowed_tools: Seq::empty(),
        model: None,
        hook: HookPartView {
            agent_spawn: Seq::empty(),
            user_prompt_submit: Seq::empty(),
            pre_tool_use: Seq::empty(),
            post_tool_use: Seq::empty(),
            stop: Seq::empty(),
        },
        mcp: Seq::empty(),
        alias: Seq::empty(),
        native_tool: NativeToolsView {
            shell: no_permissions(),
            aws: no_permissions(),
            read: no_permissions(),
            write: no_permissions(),
        },
        tool_setting: Seq::empty(),
    }
}

/// The aliases that a document declares, by the tool's name: of two aliases of one
/// tool the later one stays.
pub open spec fn aliases_of(alias: Seq<ToolAliasKdl>) -> Seq<(Seq<char>, Seq<char>)> {
    assoc_collect(alias.map_values(|a: ToolAliasKdl| (a.from@, a.to@)))
}

/// The tools that a document allows unasked, each once.
pub open spec fn allowed_of(allowed: Option<AllowedTools>) -> Seq<Seq<char>> {
    match allowed {
        Some(a) => seq_dedup(texts(a.allowed@)),
        None => Seq::empty(),
    }
}

/// The tool patterns that a document declares, each once.
pub open spec fn tools_of(tools: Option<Tools>) -> Seq<Seq<char>> {
    match tools {
        Some(t) => seq_dedup(texts(t.tools@)),
        None => Seq::empty(),
    }
}

/// The resources that a document declares, each once.
pub open spec fn resources_of(resources: Seq<Resource>) -> Seq<Seq<char>> {
    seq_dedup(resources.map_values(|r: Resource| r.location@))
}

/// The servers that a document declares, by name: of two servers of one name the
/// later one stays.
pub open spec fn servers_of(mcp: Seq<CustomToolConfigKdl>) -> Seq<(Seq<char>, CustomToolConfigView)> {
    assoc_collect(mcp.map_values(|m: CustomToolConfigKdl| (m.name@, m.tool())))
}

/// The hooks that a document declares, by trigger and name.
pub open spec fn hooks_of_doc(hook: Option<HookDoc>) -> HookPartView {
    match hook {
        Some(h) => crate::config::hook::hook_part_of(h),
        None => blank_draft(Seq::empty()).hook,
    }
}

/// The description that a document declares.
pub open spec fn description_of(description: Option<Description>) -> Option<Seq<char>> {
    match description {
        Some(d) => Some(d.value@),
        None => None,
    }
}

/// The prompt that a document declares.
pub open spec fn prompt_of(prompt: Option<Prompt>) -> Option<Seq<char>> {
    match prompt {
        Some(p) => Some(p.value@),
        None => None,
    }
}

/// The model that a document declares.
pub open spec fn model_of(model: Option<Model>) -> Option<Seq<char>> {
    match model {
        Some(m) => Some(m.value@),
        None => None,
    }
}

impl KdlAgentDoc {
    /// The declared prompt, or the empty text.
    pub open spec fn spec_prompt(self) -> Seq<char> {
        match self.prompt {
            Some(p) => p.value@,
            None => Seq::empty(),
        }
    }

    /// The declared description, or the empty text.
    pub open spec fn spec_description(self) -> Seq<char> {
        match self.description {
            Some(d) => d.value@,
            None => Seq::empty(),
        }
    }

    /// Whether the document marks the agent as a template.
    pub open spec fn spec_is_template(self) -> bool {
        self.template == Some(true)
    }

    /// The declared aliases by the tool's name.
    pub open spec fn spec_tool_aliases(self) -> Seq<(Seq<char>, Seq<char>)> {
        aliases_of(self.alias@)
    }

    /// The tools that may be used unasked, each once.
    pub open spec fn spec_allowed_tools(self) -> Seq<Seq<char>> {
        allowed_of(self.allowed_tools)
    }

    /// The declared tool patterns, each once.
    pub open spec fn spec_tools(self) -> Seq<Seq<char>> {
        tools_of(self.tools)
    }

    /// The declared parents, each once.
    pub open spec fn spec_inherits(self) -> Seq<Seq<char>> {
        seq_dedup(texts(self.inherits.parents@))
    }

    /// The declared resources, each once.
    pub open spec fn spec_resources(self) -> Seq<Seq<char>> {
        resources_of(self.resources@)
    }

    /// The declared servers by name.
    pub open spec fn spec_mcp_servers(self) -> Seq<(Seq<char>, CustomToolConfigView)> {
        servers_of(self.mcp@)
    }

    /// The declared hooks, by trigger and name.
    pub open spec fn spec_hooks(self) -> HookPartView {
        hooks_of_doc(self.hook)
    }

    /// The draft that the document gives.
    pub open spec fn draft(self) -> KdlAgentView {
        KdlAgentView {
            name: self.name@,
            template: self.template,
            description: description_of(self.description),
            inherits: self.spec_inherits(),
            prompt: prompt_of(self.prompt),
            resources: self.spec_resources(),
            include_mcp_json: self.include_mcp_json,
            tools: self.spec_tools(),
            allowed_tools: self.spec_allowed_tools(),
            model: model_of(self.model),
            hook: self.spec_hooks(),
            mcp: self.spec_mcp_servers(),
            alias: self.spec_tool_aliases(),
            native_tool: crate::config::native::native_of(self.native_tool),
            tool_setting: setting_views(self.tool_setting@),
        }
    }

    /// The declared prompt, or the empty string.
    pub fn prompt(&self) -> (s: String)
        ensures
            s@ == self.spec_prompt(),
    {
        match &self.prompt {
            Some(p) => p.value.clone(),
            None => String::new(),
        }
    }

    /// The declared description, or the empty string.
    pub fn description(&self) -> (s: String)
        ensures
            s@ == self.spec_description(),
    {
        match &self.description {
            Some(d) => d.value.clone(),
            None => String::new(),
        }
    }

    /// A document that declares the agent `name` and says nothing of it.
    pub fn new(name: &str) -> (doc: KdlAgentDoc)
        ensures
            doc.name@ == name@,
            doc.draft() == blank_draft(name@),
    {
        let doc = KdlAgentDoc {
            name: name.to_owned(),
            template: None,
            description: None,
            inherits: Inherits { parents: Vec::new() },
            prompt: None,
            resources: Vec::new(),
            include_mcp_json: None,
            tools: None,
            allowed_tools: None,
            model: None,
            hook: None,
            mcp: Vec::new(),
            alias: Vec::new(),
            native_tool: NativeToolsDoc {
                shell: crate::config::native::PermissionDoc::empty(),
                aws: crate::config::native::PermissionDoc::empty(),
                read: crate::config::native::PermissionDoc::empty(),
                write: crate::config::native::PermissionDoc::empty(),
            },
            tool_setting: Vec::new(),
        };
        proof {
            crate::config::native::lemma_native_of_empty(doc.native_tool);
            assert(texts(doc.inherits.parents@) =~= Seq::empty());
            assert(doc.resources@.map_values(|r: Resource| r.location@) =~= Seq::empty());
            assert(doc.mcp@.map_values(|m: CustomToolConfigKdl| (m.name@, m.tool()))
                =~= Seq::empty());
            assert(doc.alias@.map_values(|a: ToolAliasKdl| (a.from@, a.to@)) =~= Seq::empty());
            assert(setting_views(doc.tool_setting@) =~= Seq::empty());
        }
        doc
    }

    /// Whether the document marks the agent as a template.
    pub fn is_template(&self) -> (b: bool)
        ensures
            b == self.spec_is_template(),
    {
        match self.template {
            Some(f) => f,
            None => false,
        }
    }

    /// The declared aliases, by the tool's name.
    pub fn tool_aliases(&self) -> (aliases: StrMap<String>)
        ensures
            aliases@ == self.spec_tool_aliases(),
    {
        let ghost entries = self.alias@.map_values(|a: ToolAliasKdl| (a.from@, a.to@));
        let mut aliases: StrMap<String> = StrMap::new();
        let mut i: usize = 0;
        while i < self.alias.len()
            invariant
                i <= self.alias.len(),
                entries == self.alias@.map_values(|a: ToolAliasKdl| (a.from@, a.to@)),
                aliases@ == assoc_collect(entries.take(i as int)),
            decreases self.alias.len() - i,
        {
            proof {
                let step = entries.take(i as int + 1);
                assert(step.drop_last() =~= entries.take(i as int));
                assert(step.last() == (self.alias@[i as int].from@, self.alias@[i as int].to@));
            }
            aliases.insert(self.alias[i].from.clone(), self.alias[i].to.clone());
            i += 1;
        }
        proof {
            assert(entries.take(self.alias.len() as int) =~= entries);
        }
        aliases
    }

    /// The declared hooks, by trigger and name.
    pub fn hooks(&self) -> (hooks: HookPart)
        ensures
            hooks@ == self.spec_hooks(),
    {
        match &self.hook {
            Some(h) => HookPart::from_doc(h),
            None => HookPart {
                agent_spawn: StrMap::new(),
                user_prompt_submit: StrMap::new(),
                pre_tool_use: StrMap::new(),
                post_tool_use: StrMap::new(),
                stop: StrMap::new(),
            },
        }
    }

    /// The tools that may be used unasked.
    pub fn allowed_tools(&self) -> (set: StrSet)
        ensures
            set@ == self.spec_allowed_tools(),
    {
        match &self.allowed_tools {
            Some(a) => StrSet::from_vec(copy_texts(&a.allowed)),
            None => StrSet::new(),
        }
    }

    /// The declared tool patterns.
    pub fn tools(&self) -> (set: StrSet)
        ensures
            set@ == self.spec_tools(),
    {
        match &self.tools {
            Some(t) => StrSet::from_vec(copy_texts(&t.tools)),
            None => StrSet::new(),
        }
    }

    /// The declared parents.
    pub fn inherits(&self) -> (set: StrSet)
        ensures
            set@ == self.spec_inherits(),
    {
        StrSet::from_vec(copy_texts(&self.inherits.parents))
    }

    /// The declared resources.
    pub fn resources(&self) -> (set: StrSet)
        ensures
            set@ == self.spec_resources(),
    {
        let ghost locations = self.resources@.map_values(|r: Resource| r.location@);
        let mut v: Vec<String> = Vec::new();
        let mut i: usize = 0;
        while i < self.resources.len()
            invariant
                i <= self.resources.len(),
                locations == self.resources@.map_values(|r: Resource| r.location@),
                texts(v@) =~= locations.take(i as int),
            decreases self.resources.len() - i,
        {
            let ghost before = texts(v@);
            v.push(self.resources[i].location.clone());
            proof {
                assert(texts(v@) =~= before.push(self.resources@[i as int].location@));
            }
            i += 1;
        }
        proof {
            assert(locations.take(self.resources.len() as int) =~= locations);
        }
        StrSet::from_vec(v)
    }

    /// The tool settings by name, each checked to be the text of a JSON object.
    pub fn extra_tool_settings(&self) -> (r: Result<StrMap<String>, ConfigError>)
        ensures
            collected_view(r) == collected_settings(self.name@, setting_views(self.tool_setting@)),
    {
        collect_tool_settings(self.name.as_str(), &self.tool_setting)
    }

    /// The declared servers, by name.
    pub fn mcp_servers(&self) -> (servers: StrMap<CustomToolConfig>)
        ensures
            servers@ == self.spec_mcp_servers(),
    {
        let ghost entries = self.mcp@.map_values(|m: CustomToolConfigKdl| (m.name@, m.tool()));
        let mut servers: StrMap<CustomToolConfig> = StrMap::new();
        let mut i: usize = 0;
        while i < self.mcp.len()
            invariant
                i <= self.mcp.len(),
                entries == self.mcp@.map_values(|m: CustomToolConfigKdl| (m.name@, m.tool())),
                servers@ == assoc_collect(entries.take(i as int)),
            decreases self.mcp.len() - i,
        {
            proof {
                let step = entries.take(i as int + 1);
                assert(step.drop_last() =~= entries.take(i as int));
                assert(step.last() == (self.mcp@[i as int].name@, self.mcp@[i as int].tool()));
            }
            servers.insert(self.mcp[i].name.clone(), CustomToolConfig::from_kdl(&self.mcp[i]));
            i += 1;
        }
        proof {
            assert(entries.take(self.mcp.len() as int) =~= entries);
        }
        servers
    }
}

impl KdlAgent {
    /// The draft of the agent `name` of which nothing else is known.
    pub fn new(name: &str) -> (draft: KdlAgent)
        ensures
            draft@ == blank_draft(name@),
    {
        let draft = KdlAgent {
            name: name.to_owned(),
            template: None,
            description: None,
            inherits: StrSet::new(),
            prompt: None,
            resources: StrSet::new(),
            include_mcp_json: None,
            tools: StrSet::new(),
            allowed_tools: StrSet::new(),
            model: None,
            hook: HookPart {
                agent_spawn: StrMap::new(),
                user_prompt_submit: StrMap::new(),
                pre_tool_use: StrMap::new(),
                post_tool_use: StrMap::new(),
                stop: StrMap::new(),
            },
            mcp: StrMap::new(),
            alias: StrMap::new(),
            native_tool: NativeTools {
                shell: ExecuteShellTool {
                    allow: crate::config::native::GenericList { list: StrSet::new() },
                    deny: crate::config::native::GenericList { list: StrSet::new() },
                    deny_by_default: None,
                    disable_auto_readonly: None,
                    override_command: StrSet::new(),
                },
                aws: AwsTool {
                    disable_auto_readonly: None,
                    allow: crate::config::native::GenericList { list: StrSet::new() },
                    deny: crate::config::native::GenericList { list: StrSet::new() },
                },
                read: ReadTool {
                    allow: crate::config::native::GenericList { list: StrSet::new() },
                    deny: crate::config::native::GenericList { list: StrSet::new() },
                    override_path: StrSet::new(),
                },
                write: WriteTool {
                    allow: crate::config::native::GenericList { list: StrSet::new() },
                    deny: crate::config::native::GenericList { list: StrSet::new() },
                    override_path: StrSet::new(),
                },
            },
            tool_setting: Vec::new(),
        };
        proof {
            assert(setting_views(draft.tool_setting@) =~= Seq::empty());
        }
        draft
    }

    /// The draft that a document gives.
    pub fn from_doc(doc: &KdlAgentDoc) -> (draft: KdlAgent)
        ensures
            draft@ == doc.draft(),
    {
        let tool_setting = crate::config::tool_setting::copy_settings(&doc.tool_setting);
        KdlAgent {
            name: doc.name.clone(),
            template: doc.template,
            description: match &doc.description {
                Some(d) => Some(d.value.clone()),
                None => None,
            },
            inherits: doc.inherits(),
            prompt: match &doc.prompt {
                Some(p) => Some(p.value.clone()),
                None => None,
            },
            resources: doc.resources(),
            include_mcp_json: doc.include_mcp_json,
            tools: doc.tools(),
            allowed_tools: doc.allowed_tools(),
            model: match &doc.model {
                Some(m) => Some(m.value.clone()),
                None => None,
            },
            hook: doc.hooks(),
            mcp: doc.mcp_servers(),
            alias: doc.tool_aliases(),
            native_tool: NativeTools::from_doc(&doc.native_tool),
            tool_setting,
        }
    }

    /// Whether the agent is a template: it is resolved, and serves as a parent, but
    /// no manifest is written for it.
    pub open spec fn spec_is_template(&self) -> bool {
        self.template == Some(true)
    }

    /// Whether the agent is a template.
    #[verifier::when_used_as_spec(spec_is_template)]
    pub fn is_template(&self) -> (b: bool)
        ensures
            b == (self.template == Some(true)),
    {
        match self.template {
            Some(f) => f,
            None => false,
        }
    }

    /// Whether the servers of the shared server file are added to the agent's own.
    pub fn include_mcp_json(&self) -> (b: bool)
        ensures
            b == (self.include_mcp_json == Some(true)),
    {
        match self.include_mcp_json {
            Some(f) => f,
            None => false,
        }
    }

    /// The permissions for calls to the cloud API.
    pub fn get_tool_aws(&self) -> (tool: &AwsTool)
        ensures
            *tool == self.native_tool.aws,
    {
        &self.native_tool.aws
    }

    /// The permissions for reading files.
    pub fn get_tool_read(&self) -> (tool: &ReadTool)
        ensures
            *tool == self.native_tool.read,
    {
        &self.native_tool.read
    }

    /// The permissions for writing files.
    pub fn get_tool_write(&self) -> (tool: &WriteTool)
        ensures
            *tool == self.native_tool.write,
    {
        &self.native_tool.write
    }

    /// The permissions for shell commands.
    pub fn get_tool_shell(&self) -> (tool: &ExecuteShellTool)
        ensures
            *tool == self.native_tool.shell,
    {
        &self.native_tool.shell
    }

    /// The aliases, by the tool's name.
    pub fn tool_aliases(&self) -> (aliases: StrMap<String>)
        ensures
            aliases@ == self@.alias,
    {
        self.alias.duplicate()
    }

    /// The hooks, by trigger and name.
    pub fn hooks(&self) -> (hooks: &HookPart)
        ensures
            *hooks == self.hook,
    {
        &self.hook
    }

    /// The tools that may be used unasked.
    pub fn allowed_tools(&self) -> (set: &StrSet)
        ensures
            *set == self.allowed_tools,
    {
        &self.allowed_tools
    }

    /// The tool patterns.
    pub fn tools(&self) -> (set: &StrSet)
        ensures
            *set == self.tools,
    {
        &self.tools
    }

    /// The parents.
    pub fn inherits(&self) -> (set: &StrSet)
        ensures
            *set == self.inherits,
    {
        &self.inherits
    }

    /// The resources, in order.
    pub fn resources(&self) -> (list: Vec<String>)
        ensures
            texts(list@) == self@.resources,
    {
        self.resources.to_vec()
    }

    /// The tool settings by name, each checked to be the text of a JSON object.
    pub fn extra_tool_settings(&self) -> (r: Result<StrMap<String>, ConfigError>)
        ensures
            collected_view(r) == collected_settings(self@.name, self@.tool_setting),
    {
        collect_tool_settings(self.name.as_str(), &self.tool_setting)
    }

    /// The servers, by name.
    pub fn mcp_servers(&self) -> (servers: StrMap<CustomToolConfig>)
        ensures
            servers@ == self@.mcp,
    {
        self.mcp.duplicate()
    }
}

impl Duplicate for KdlAgent {
    fn duplicate(&self) -> (copy: KdlAgent) {
        KdlAgent {
            name: self.name.clone(),
            template: self.template,
            description: copy_opt_text(&self.description),
            inherits: self.inherits.duplicate(),
            prompt: copy_opt_text(&self.prompt),
            resources: self.resources.duplicate(),
            include_mcp_json: self.include_mcp_json,
            tools: self.tools.duplicate(),
            allowed_tools: self.allowed_tools.duplicate(),
            model: copy_opt_text(&self.model),
            hook: self.hook.duplicate(),
            mcp: self.mcp.duplicate(),
            alias: self.alias.duplicate(),
            native_tool: self.native_tool.duplicate(),
            tool_setting: crate::config::tool_setting::copy_settings(&self.tool_setting),
        }
    }
}

} // verus!
