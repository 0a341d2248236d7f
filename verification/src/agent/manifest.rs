use vstd::prelude::*;
use vstd::string::StringExecFns;
use crate::agent::custom_tool::{with_resolved_timeout, CustomToolConfigView};
use crate::agent::hook::{trigger_order, Hook, HookTrigger, HookView};
use crate::agent::mcp_config::McpServerConfig;
use crate::agent::tools::{
    default_aws, default_paths, default_shell, AwsTool, AwsToolView, ExecuteShellTool,
    ExecuteShellToolView, PathToolView, ReadTool, ToolTarget, WriteTool,
};
use crate::config::agent::{KdlAgent, KdlAgentView};
use crate::config::hook::{hook_views, unnamed, HookPartView};
use crate::config::native::{project_aws, project_paths, project_shell, NativeToolsView};
use crate::config::tool_setting::{collect_tool_settings, collected_settings, settings_valid};
use crate::error::{ConfigError, ConfigErrorView};
use crate::text::{copy_opt_text, opt_text, Duplicate};
use crate::text_map::{assoc_put, StrMap};
use crate::text_set::StrSet;

verus! {

/// The settings of one tool in a manifest: those of a built-in category, or the
/// text of a JSON object for any other tool.
#[derive(Debug, Clone, PartialEq, Eq)]
pub enum ToolSettingValue {
    Aws(AwsTool),
    Read(ReadTool),
    Write(WriteTool),
    Shell(ExecuteShellTool),
    Json(String),
}

/// What the settings of one tool hold.
pub enum ToolSettingView {
    Aws(AwsToolView),
    Read(PathToolView),
    Write(PathToolView),
    Shell(ExecuteShellToolView),
    Json(Seq<char>),
}

impl View for ToolSettingValue {
    type V = ToolSettingView;

    open spec fn view(&self) -> ToolSettingView {
        match self {
            ToolSettingValue::Aws(t) => ToolSettingView::Aws(t@),
            ToolSettingValue::Read(t) => ToolSettingView::Read(t@),
            ToolSettingValue::Write(t) => ToolSettingView::Write(t@),
            ToolSettingValue::Shell(t) => ToolSettingView::Shell(t@),
            ToolSettingValue::Json(s) => ToolSettingView::Json(s@),
        }
    }
}

impl Duplicate for ToolSettingValue {
    fn duplicate(&self) -> (copy: ToolSettingValue) {
        match self {
            ToolSettingValue::Aws(t) => ToolSettingValue::Aws(t.duplicate()),
            ToolSettingValue::Read(t) => ToolSettingValue::Read(t.duplicate()),
            ToolSettingValue::Write(t) => ToolSettingValue::Write(t.duplicate()),
            ToolSettingValue::Shell(t) => ToolSettingValue::Shell(t.duplicate()),
            ToolSettingValue::Json(s) => ToolSettingValue::Json(s.clone()),
        }
    }
}

/// The manifest of one agent: what is written out for it.
#[derive(Debug, Clone, PartialEq, Eq)]
pub struct Agent {
    /// The agent's name.
    pub name: String,
    /// What the agent is for; shown to users, not to the model.
    pub description: Option<String>,
    /// The context the agent starts with.
    pub prompt: Option<String>,
    /// The servers of the agent.
    pub mcp_servers: McpServerConfig,
    /// The tools the agent sees.
    pub tools: StrSet,
    /// Other names for tools, by the tool's name.
    pub tool_aliases: StrMap<String>,
    /// The tools the agent may use unasked.
    pub allowed_tools: StrSet,
    /// The files in the agent's context.
    pub resources: StrSet,
    /// The hooks of each trigger.
    pub hooks: Vec<(HookTrigger, Vec<Hook>)>,
    /// The settings of tools, by the tool's name.
    pub tools_settings: StrMap<ToolSettingValue>,
    /// The model the agent uses.
    pub model: Option<String>,
    /// Whether the servers of the shared server file are added to the agent's own.
    pub include_mcp_json: bool,
}

/// What a manifest holds.
pub struct AgentView {
    pub name: Seq<char>,
    pub description: Option<Seq<char>>,
    pub prompt: Option<Seq<char>>,
    pub mcp_servers: Seq<(Seq<char>, CustomToolConfigView)>,
    pub tools: Seq<Seq<char>>,
    pub tool_aliases: Seq<(Seq<char>, Seq<char>)>,
    pub allowed_tools: Seq<Seq<char>>,
    pub resources: Seq<Seq<char>>,
    pub hooks: Seq<(HookTrigger, Seq<HookView>)>,
    pub tools_settings: Seq<(Seq<char>, ToolSettingView)>,
    pub model: Option<Seq<char>>,
    pub include_mcp_json: bool,
}

/// The views of a table of hooks.
pub open spec fn table_view(table: Seq<(HookTrigger, Vec<Hook>)>) -> Seq<
    (HookTrigger, Seq<HookView>),
> {
    table.map_values(|row: (HookTrigger, Vec<Hook>)| (row.0, hook_views(row.1@)))
}

impl View for Agent {
    type V = AgentView;

    open spec fn view(&self) -> AgentView {
        AgentView {
            name: self.name@,
            description: opt_text(self.description),
            prompt: opt_text(self.prompt),
            mcp_servers: self.mcp_servers@,
            tools: self.tools@,
            tool_aliases: self.tool_aliases@,
            allowed_tools: self.allowed_tools@,
            resources: self.resources@,
            hooks: table_view(self.hooks@),
            tools_settings: self.tools_settings@,
            model: opt_text(self.model),
            include_mcp_json: self.include_mcp_json,
        }
    }
}

/// The tools of an agent that names none: all of them.
pub open spec fn default_tools() -> Seq<Seq<char>> {
    seq!["*"@]
}

/// The resources of an agent that names none.
pub open spec fn default_resources() -> Seq<Seq<char>> {
    seq!["file://README.md"@, "file://AGENTS.md"@]
}

/// The manifest of the agent that is there when none is configured.
pub open spec fn default_agent() -> AgentView {
    AgentView {
        name: "kiro_default"@,
        description: Some("Default agent"@),
        prompt: None,
        mcp_servers: Seq::empty(),
        tools: default_tools(),
        tool_aliases: Seq::empty(),
        allowed_tools: Seq::empty(),
        resources: default_resources(),
        hooks: Seq::empty(),
        tools_settings: Seq::empty(),
        model: None,
        include_mcp_json: true,
    }
}

/// The servers with their timeouts resolved.
pub open spec fn resolved_servers(servers: Seq<(Seq<char>, CustomToolConfigView)>) -> Seq<
    (Seq<char>, CustomToolConfigView),
> {
    servers.map_values(|e: (Seq<char>, CustomToolConfigView)| (e.0, with_resolved_timeout(e.1)))
}

/// The table of the hooks of a manifest: empty where the agent has no hook at all,
/// else for each of the five triggers its hooks.
pub open spec fn hook_table(hook: HookPartView) -> Seq<(HookTrigger, Seq<HookView>)> {
    if forall|t: HookTrigger| (#[trigger] hook.of(t)).len() == 0 {
        Seq::empty()
    } else {
        trigger_order().map_values(|t: HookTrigger| (t, unnamed(hook.of(t))))
    }
}

/// `m`, with the value of `k` set to `v` if `present`.
pub open spec fn put_if(
    m: Seq<(Seq<char>, ToolSettingView)>,
    present: bool,
    k: Seq<char>,
    v: ToolSettingView,
) -> Seq<(Seq<char>, ToolSettingView)> {
    if present {
        assoc_put(m, k, v)
    } else {
        m
    }
}

/// The settings of the built-in categories: those of the cloud API, of reading, of
/// writing and of the shell, in that order, each only where it differs from what a
/// manifest leaves out.
pub open spec fn native_settings(n: NativeToolsView) -> Seq<(Seq<char>, ToolSettingView)> {
    let aws = project_aws(n.aws);
    let read = project_paths(n.read);
    let write = project_paths(n.write);
    let shell = project_shell(n.shell);
    put_if(
        put_if(
            put_if(
                put_if(
                    Seq::empty(),
                    aws != default_aws(),
                    ToolTarget::Aws.spec_name(),
                    ToolSettingView::Aws(aws),
                ),
                read != default_paths(),
                ToolTarget::Read.spec_name(),
                ToolSettingView::Read(read),
            ),
            write != default_paths(),
            ToolTarget::Write.spec_name(),
            ToolSettingView::Write(write),
        ),
        shell != default_shell(),
        ToolTarget::Shell.spec_name(),
        ToolSettingView::Shell(shell),
    )
}

/// `m` with the settings `extra` put in, one after the other: a setting with the
/// name of one that is there replaces it.
pub open spec fn put_json(
    m: Seq<(Seq<char>, ToolSettingView)>,
    extra: Seq<(Seq<char>, Seq<char>)>,
) -> Seq<(Seq<char>, ToolSettingView)>
    decreases extra.len(),
{
    if extra.len() == 0 {
        m
    } else {
        assoc_put(
            put_json(m, extra.drop_last()),
            extra.last().0,
            ToolSettingView::Json(extra.last().1),
        )
    }
}

/// The manifest of a resolved agent whose tool settings `extra` have been checked.
///
/// - No tool pattern stands for all tools, no resource for the default resources.
/// - A server with the timeout 0 gets the default timeout.
/// - The settings of a built-in category hold the permissions in effect: every
///   override is allowed and is not denied.
/// - A tool setting replaces the settings of a built-in category of the same name.
pub open spec fn assemble(draft: KdlAgentView, extra: Seq<(Seq<char>, Seq<char>)>) -> AgentView {
    AgentView {
        name: draft.name,
        description: draft.description,
        prompt: draft.prompt,
        mcp_servers: resolved_servers(draft.mcp),
        tools: if draft.tools.len() == 0 {
            default_tools()
        } else {
            draft.tools
        },
        tool_aliases: draft.alias,
        allowed_tools: draft.allowed_tools,
        resources: if draft.resources.len() == 0 {
            default_resources()
        } else {
            draft.resources
        },
        hooks: hook_table(draft.hook),
        tools_settings: put_json(native_settings(draft.native_tool), extra),
        model: draft.model,
        include_mcp_json: draft.include_mcp_json == Some(true),
    }
}

/// The manifest of a resolved agent, or the error in its tool settings.
pub open spec fn assembled(draft: KdlAgentView) -> Result<AgentView, ConfigErrorView> {
    match collected_settings(draft.name, draft.tool_setting) {
        Ok(extra) => Ok(assemble(draft, extra)),
        Err(e) => Err(e),
    }
}

/// A server of a manifest never has the timeout 0: one declared as 0 has the
/// default, and any other timeout is the declared one.
pub proof fn lemma_timeouts_resolved(
    draft: KdlAgentView,
    extra: Seq<(Seq<char>, Seq<char>)>,
    i: int,
)
    requires
        0 <= i < draft.mcp.len(),
    ensures
        assemble(draft, extra).mcp_servers.len() == draft.mcp.len(),
        assemble(draft, extra).mcp_servers[i].0 == draft.mcp[i].0,
        draft.mcp[i].1.timeout == 0 ==> assemble(draft, extra).mcp_servers[i].1.timeout == 120000,
        draft.mcp[i].1.timeout != 0 ==> assemble(draft, extra).mcp_servers[i].1.timeout
            == draft.mcp[i].1.timeout,
        assemble(draft, extra).mcp_servers[i].1.timeout != 0,
{
}

/// The view of a manifest or of an error.
pub open spec fn manifest_view(r: Result<Agent, ConfigError>) -> Result<AgentView, ConfigErrorView> {
    match r {
        Ok(a) => Ok(a@),
        Err(e) => Err(e@),
    }
}

/// The set that holds the pattern for all tools.
pub fn all_tools() -> (set: StrSet)
    ensures
        set@ == default_tools(),
{
    let mut set = StrSet::new();
    set.insert(String::from_str("*"));
    proof {
        assert(set@ =~= default_tools());
    }
    set
}

/// The resources of an agent that names none.
pub fn default_agent_resources() -> (set: StrSet)
    ensures
        set@ == default_resources(),
{
    let mut set = StrSet::new();
    set.insert(String::from_str("file://README.md"));
    set.insert(String::from_str("file://AGENTS.md"));
    proof {
        reveal_strlit("file://README.md");
        reveal_strlit("file://AGENTS.md");
        assert("file://README.md"@[7] != "file://AGENTS.md"@[7]);
        assert(!seq!["file://README.md"@].contains("file://AGENTS.md"@)) by {
            if seq!["file://README.md"@].contains("file://AGENTS.md"@) {
                let i = choose|i: int|
                    0 <= i < 1 && seq!["file://README.md"@][i] == "file://AGENTS.md"@;
                assert(seq!["file://README.md"@][i] == "file://README.md"@);
            }
        }
        assert(set@ =~= default_resources());
    }
    set
}

/// The servers with their timeouts resolved.
pub fn resolve_servers(servers: &StrMap<crate::agent::custom_tool::CustomToolConfig>) -> (out:
    StrMap<crate::agent::custom_tool::CustomToolConfig>)
    ensures
        out@ == resolved_servers(servers@),
{
    let mut out = servers.duplicate();
    let n = out.len();
    let mut i: usize = 0;
    while i < n
        invariant
            i <= n,
            n == servers@.len(),
            out@.len() == n,
            forall|j: int|
                0 <= j < i ==> #[trigger] out@[j] == (
                    servers@[j].0,
                    with_resolved_timeout(servers@[j].1),
                ),
            forall|j: int| i <= j < n ==> #[trigger] out@[j] == servers@[j],
        decreases n - i,
    {
        let resolved = out.value_at(i).resolved();
        out.set_value_at(i, resolved);
        i += 1;
    }
    proof {
        assert(out@ =~= resolved_servers(servers@));
    }
    out
}

/// The settings of the built-in categories that a manifest holds.
pub fn native_tool_settings(native: &crate::config::native::NativeTools) -> (settings: StrMap<
    ToolSettingValue,
>)
    ensures
        settings@ == native_settings(native@),
{
    let mut settings: StrMap<ToolSettingValue> = StrMap::new();
    let tool = AwsTool::from_native(native);
    if !tool.is_default() {
        settings.insert(ToolTarget::Aws.to_string(), ToolSettingValue::Aws(tool));
    }
    let tool = ReadTool::from_native(native);
    if !tool.is_default() {
        settings.insert(ToolTarget::Read.to_string(), ToolSettingValue::Read(tool));
    }
    let tool = WriteTool::from_native(native);
    if !tool.is_default() {
        settings.insert(ToolTarget::Write.to_string(), ToolSettingValue::Write(tool));
    }
    let tool = ExecuteShellTool::from_native(native);
    if !tool.is_default() {
        settings.insert(ToolTarget::Shell.to_string(), ToolSettingValue::Shell(tool));
    }
    settings
}

impl Agent {
    /// The manifest of the agent that is there when none is configured.
    pub fn default() -> (agent: Agent)
        ensures
            agent@ == default_agent(),
    {
        let agent = Agent {
            name: String::from_str("kiro_default"),
            description: Some(String::from_str("Default agent")),
            tools: all_tools(),
            prompt: None,
            mcp_servers: McpServerConfig { mcp_servers: StrMap::new() },
            tool_aliases: StrMap::new(),
            allowed_tools: StrSet::new(),
            resources: default_agent_resources(),
            hooks: Vec::new(),
            tools_settings: StrMap::new(),
            include_mcp_json: true,
            model: None,
        };
        proof {
            assert(table_view(agent.hooks@) =~= Seq::empty());
        }
        agent
    }

    /// The manifest of a resolved agent whose tool settings have been collected.
    pub fn assemble(value: &KdlAgent, extra: &StrMap<String>) -> (agent: Agent)
        ensures
            agent@ == assemble(value@, extra@),
    {
        let mut tools_settings = native_tool_settings(&value.native_tool);
        let n = extra.len();
        let mut i: usize = 0;
        proof {
            assert(extra@.take(0) =~= Seq::<(Seq<char>, Seq<char>)>::empty());
        }
        while i < n
            invariant
                i <= n,
                n == extra@.len(),
                tools_settings@ == put_json(
                    native_settings(value@.native_tool),
                    extra@.take(i as int),
                ),
            decreases n - i,
        {
            proof {
                let step = extra@.take(i as int + 1);
                assert(step.drop_last() =~= extra@.take(i as int));
                assert(step.last() == extra@[i as int]);
            }
            tools_settings.insert(
                extra.key_at(i).clone(),
                ToolSettingValue::Json(extra.value_at(i).clone()),
            );
            i += 1;
        }
        proof {
            assert(extra@.take(n as int) =~= extra@);
        }
        let tools = if value.tools.is_empty() {
            all_tools()
        } else {
            value.tools.duplicate()
        };
        let resources = if value.resources.is_empty() {
            default_agent_resources()
        } else {
            value.resources.duplicate()
        };
        let hooks = if value.hook.is_empty() {
            Vec::new()
        } else {
            value.hook.triggers()
        };
        proof {
            assert(table_view(hooks@) =~= hook_table(value@.hook));
        }
        Agent {
            name: value.name.clone(),
            description: copy_opt_text(&value.description),
            prompt: copy_opt_text(&value.prompt),
            mcp_servers: McpServerConfig { mcp_servers: resolve_servers(&value.mcp) },
            tools,
            tool_aliases: value.alias.duplicate(),
            allowed_tools: value.allowed_tools.duplicate(),
            resources,
            hooks,
            tools_settings,
            model: copy_opt_text(&value.model),
            include_mcp_json: value.include_mcp_json(),
        }
    }

    /// The manifest of a resolved agent, or the error in its tool settings.
    pub fn try_from(value: &KdlAgent) -> (r: Result<Agent, ConfigError>)
        ensures
            manifest_view(r) == assembled(value@),
            r is Ok <==> settings_valid(value@.tool_setting),
            r is Ok ==> r->Ok_0@ == assemble(value@, value@.tool_setting),
    {
        match collect_tool_settings(value.name.as_str(), &value.tool_setting) {
            Ok(extra) => Ok(Agent::assemble(value, &extra)),
            Err(e) => Err(e),
        }
    }
}

} // verus!
