use vstd::prelude::*;
use vstd::string::StringExecFns;
use crate::agent::manifest::{assembled, Agent, AgentView};
use crate::config::tool_setting::{lemma_collected_iff_valid, settings_valid};
use crate::agent::tools::ToolTarget;
use crate::config::agent::{KdlAgent, KdlAgentView};
use crate::error::{ConfigError, ConfigErrorView};
use crate::generator::config_location::{aggregate_path, ConfigLocation};
use crate::generator::discover::{discover, discovered, DocumentSet, ResolvedAgents};
use crate::generator::merge::{draft_views, resolve_all, resolved_all};
use crate::source::{agent_is_local, SourceView};
use crate::text::texts;

verus! {

/// What is to be done for one agent.
#[derive(Debug, Clone)]
pub struct AgentResult {
    /// The manifest.
    pub kiro_agent: Agent,
    /// The resolved agent that the manifest was made from.
    pub agent: KdlAgent,
    /// Whether the manifest is written: it is not for a template.
    pub writable: bool,
    /// Whether the agent has a source in the project.
    pub local: bool,
    /// The directory that the manifest belongs in.
    pub destination: String,
}

/// What a plan for one agent holds.
pub struct AgentResultView {
    pub kiro_agent: AgentView,
    pub agent: KdlAgentView,
    pub writable: bool,
    pub local: bool,
    pub destination: Seq<char>,
}

impl View for AgentResult {
    type V = AgentResultView;

    open spec fn view(&self) -> AgentResultView {
        AgentResultView {
            kiro_agent: self.kiro_agent@,
            agent: self.agent@,
            writable: self.writable,
            local: self.local,
            destination: self.destination@,
        }
    }
}

/// The patterns that the permissions of a category grant whatever is denied. The
/// cloud API has none.
pub open spec fn forced_patterns(agent: KdlAgentView, target: ToolTarget) -> Seq<Seq<char>> {
    match target {
        ToolTarget::Read => agent.native_tool.read.overrides,
        ToolTarget::Write => agent.native_tool.write.overrides,
        ToolTarget::Shell => agent.native_tool.shell.overrides,
        ToolTarget::Aws => Seq::empty(),
    }
}

impl AgentResult {
    /// The patterns that the agent's permissions of a category grant whatever is
    /// denied.
    pub fn forced(&self, target: &ToolTarget) -> (patterns: Vec<String>)
        ensures
            texts(patterns@) == forced_patterns(self@.agent, *target),
    {
        match target {
            ToolTarget::Read => self.agent.native_tool.read.override_path.to_vec(),
            ToolTarget::Write => self.agent.native_tool.write.override_path.to_vec(),
            ToolTarget::Shell => self.agent.native_tool.shell.override_command.to_vec(),
            ToolTarget::Aws => {
                let none: Vec<String> = Vec::new();
                proof {
                    assert(texts(none@) =~= Seq::<Seq<char>>::empty());
                }
                none
            },
        }
    }

    /// The resources that the agent names itself.
    pub fn resources(&self) -> (list: Vec<String>)
        ensures
            texts(list@) == self@.agent.resources,
    {
        self.agent.resources.to_vec()
    }

    /// The path of the manifest's file.
    pub fn manifest_path(&self) -> (path: String)
        ensures
            path@ == self.destination@ + "/"@ + self.agent.name@ + ".json"@,
    {
        self.destination.clone().concat("/").concat(self.agent.name.as_str()).concat(".json")
    }
}

/// The directory for the manifests of the project.
pub open spec fn local_agents_dir() -> Seq<char> {
    ".kiro/agents"@
}

/// The directory that the manifest of an agent belongs in: that of the project for
/// an agent with a source in the project, else that of the user, whose home
/// directory is `home`. Where no home directory is known, it is that of the project.
pub open spec fn destination_for(local: bool, home: Option<Seq<char>>) -> Seq<char> {
    if local {
        local_agents_dir()
    } else {
        match home {
            Some(h) => h + "/"@ + local_agents_dir(),
            None => local_agents_dir(),
        }
    }
}

/// The text of an optional string slice.
pub open spec fn opt_str(o: Option<&str>) -> Option<Seq<char>> {
    match o {
        Some(s) => Some(s@),
        None => None,
    }
}

/// What is to be done for a resolved agent, or the error in its tool settings.
pub open spec fn planned(agent: KdlAgentView, local: bool, home: Option<Seq<char>>) -> Result<
    AgentResultView,
    ConfigErrorView,
> {
    match assembled(agent) {
        Err(e) => Err(e),
        Ok(manifest) => Ok(
            AgentResultView {
                kiro_agent: manifest,
                agent,
                writable: agent.template != Some(true),
                local,
                destination: destination_for(local, home),
            },
        ),
    }
}

/// What is to be done for each of the resolved agents; the first agent whose tool
/// settings are wrong gives the error.
pub open spec fn planned_all(
    agents: Seq<KdlAgentView>,
    sources: Seq<(Seq<char>, Seq<SourceView>)>,
    home: Option<Seq<char>>,
) -> Result<Seq<AgentResultView>, ConfigErrorView>
    decreases agents.len(),
{
    if agents.len() == 0 {
        Ok(Seq::empty())
    } else {
        match planned_all(agents.drop_last(), sources, home) {
            Err(e) => Err(e),
            Ok(earlier) => match planned(
                agents.last(),
                agent_is_local(sources, agents.last().name),
                home,
            ) {
                Err(e) => Err(e),
                Ok(result) => Ok(earlier.push(result)),
            },
        }
    }
}

/// There is a plan for all agents exactly when the tool settings of each are valid,
/// and then each has the plan that it has on its own.
pub proof fn lemma_planned_all_pointwise(
    agents: Seq<KdlAgentView>,
    sources: Seq<(Seq<char>, Seq<SourceView>)>,
    home: Option<Seq<char>>,
)
    ensures
        planned_all(agents, sources, home) is Ok <==> forall|i: int|
            0 <= i < agents.len() ==> settings_valid((#[trigger] agents[i]).tool_setting),
        planned_all(agents, sources, home) is Ok ==> {
            let all = planned_all(agents, sources, home)->Ok_0;
            &&& all.len() == agents.len()
            &&& forall|i: int|
                0 <= i < agents.len() ==> planned(
                    agents[i],
                    agent_is_local(sources, agents[i].name),
                    home,
                ) == Ok::<AgentResultView, ConfigErrorView>(#[trigger] all[i])
        },
    decreases agents.len(),
{
    if agents.len() > 0 {
        let front = agents.drop_last();
        let last = agents.last();
        lemma_planned_all_pointwise(front, sources, home);
        lemma_collected_iff_valid(last.name, last.tool_setting);
        assert(agents[agents.len() - 1] == last);
        if planned_all(agents, sources, home) is Ok {
            let all = planned_all(agents, sources, home)->Ok_0;
            let earlier = planned_all(front, sources, home)->Ok_0;
            assert forall|i: int| 0 <= i < agents.len() implies settings_valid(
                (#[trigger] agents[i]).tool_setting,
            ) by {
                if i < front.len() {
                    assert(front[i] == agents[i]);
                }
            }
            assert forall|i: int| 0 <= i < agents.len() implies planned(
                agents[i],
                agent_is_local(sources, agents[i].name),
                home,
            ) == Ok::<AgentResultView, ConfigErrorView>(#[trigger] all[i]) by {
                if i < front.len() {
                    assert(front[i] == agents[i]);
                    assert(all[i] == earlier[i]);
                }
            }
        }
        if forall|i: int|
            0 <= i < agents.len() ==> settings_valid((#[trigger] agents[i]).tool_setting) {
            assert forall|i: int| 0 <= i < front.len() implies settings_valid(
                (#[trigger] front[i]).tool_setting,
            ) by {
                assert(front[i] == agents[i]);
            }
        }
    }
}

/// An error found among the first `n` agents is the error of all of them.
pub proof fn lemma_plan_error_stays(
    agents: Seq<KdlAgentView>,
    sources: Seq<(Seq<char>, Seq<SourceView>)>,
    home: Option<Seq<char>>,
    n: int,
)
    requires
        0 <= n <= agents.len(),
        planned_all(agents.take(n), sources, home) is Err,
    ensures
        planned_all(agents, sources, home) == planned_all(agents.take(n), sources, home),
    decreases agents.len() - n,
{
    if n < agents.len() {
        assert(agents.take(n + 1).drop_last() =~= agents.take(n));
        lemma_plan_error_stays(agents, sources, home, n + 1);
    } else {
        assert(agents.take(n) =~= agents);
    }
}

/// The views of a list of plans.
pub open spec fn result_views(results: Seq<AgentResult>) -> Seq<AgentResultView> {
    results.map_values(|r: AgentResult| r@)
}

/// The view of one plan or of an error.
pub open spec fn plan_view(r: Result<AgentResult, ConfigError>) -> Result<
    AgentResultView,
    ConfigErrorView,
> {
    match r {
        Ok(result) => Ok(result@),
        Err(e) => Err(e@),
    }
}

/// The view of a list of plans or of an error.
pub open spec fn plans_view(r: Result<Vec<AgentResult>, ConfigError>) -> Result<
    Seq<AgentResultView>,
    ConfigErrorView,
> {
    match r {
        Ok(results) => Ok(result_views(results@)),
        Err(e) => Err(e@),
    }
}

/// Everything that is to be done: the agents resolved against their parents, then a
/// plan for each.
pub open spec fn generated(
    drafts: Seq<(Seq<char>, KdlAgentView)>,
    sources: Seq<(Seq<char>, Seq<SourceView>)>,
    home: Option<Seq<char>>,
) -> Result<Seq<AgentResultView>, ConfigErrorView> {
    match resolved_all(drafts, drafts) {
        Err(e) => Err(e),
        Ok(agents) => planned_all(agents, sources, home),
    }
}

/// Whether there is a plan for every agent: every parent that an agent names is
/// declared, and the tool settings of every resolved agent are valid.
pub open spec fn can_generate(drafts: Seq<(Seq<char>, KdlAgentView)>) -> bool {
    match resolved_all(drafts, drafts) {
        Err(_) => false,
        Ok(agents) => forall|i: int|
            0 <= i < agents.len() ==> settings_valid((#[trigger] agents[i]).tool_setting),
    }
}

/// The agents of one run and what was found out about their sources.
#[derive(Debug, Clone)]
pub struct Generator {
    /// The path of the user's document, where the user's layer is read.
    pub global_path: Option<String>,
    /// The agents, each merged from its sources.
    pub resolved: ResolvedAgents,
}

impl Generator {
    /// Discovers the agents of `docs`.
    pub fn new(location: &ConfigLocation, docs: &DocumentSet) -> (generator: Generator)
        ensures
            discovered(
                *location,
                docs@,
                generator.resolved.agents@,
                generator.resolved.sources@,
            ),
            match location.spec_global_dir() {
                Some(dir) => generator.global_path is Some && generator.global_path->Some_0@
                    == aggregate_path(dir),
                None => generator.global_path is None,
            },
    {
        let global_path = location.global_kg();
        let resolved = discover(location, docs);
        Generator { global_path, resolved }
    }

    /// Whether the agent `agent_name` has a source in the project.
    pub fn is_local(&self, agent_name: &str) -> (b: bool)
        ensures
            b == agent_is_local(self.resolved.sources@, agent_name@),
    {
        self.resolved.sources.is_local(agent_name)
    }

    /// The directory that the manifest of the agent `agent_name` belongs in, where
    /// `home` is the user's home directory, if it is known.
    pub fn destination_dir(&self, agent_name: &str, home: Option<&str>) -> (dir: String)
        ensures
            dir@ == destination_for(
                agent_is_local(self.resolved.sources@, agent_name@),
                opt_str(home),
            ),
    {
        if self.is_local(agent_name) {
            String::from_str(".kiro/agents")
        } else {
            match home {
                Some(h) => String::from_str(h).concat("/").concat(".kiro/agents"),
                None => String::from_str(".kiro/agents"),
            }
        }
    }

    /// The agents with their parents merged in.
    pub fn merge(&self) -> (r: Result<Vec<KdlAgent>, ConfigError>)
        ensures
            crate::generator::merge::results_view(r) == resolved_all(
                self.resolved.agents@,
                self.resolved.agents@,
            ),
    {
        resolve_all(&self.resolved.agents)
    }

    /// What is to be done for one resolved agent: its manifest, whether and where
    /// it is written.
    pub fn write(&self, agent: KdlAgent, home: Option<&str>) -> (r: Result<
        AgentResult,
        ConfigError,
    >)
        ensures
            plan_view(r) == planned(
                agent@,
                agent_is_local(self.resolved.sources@, agent@.name),
                opt_str(home),
            ),
            r is Ok <==> settings_valid(agent@.tool_setting),
    {
        let local = self.is_local(agent.name.as_str());
        let destination = self.destination_dir(agent.name.as_str(), home);
        match Agent::try_from(&agent) {
            Err(e) => Err(e),
            Ok(kiro_agent) => Ok(
                AgentResult {
                    kiro_agent,
                    writable: !agent.is_template(),
                    local,
                    destination,
                    agent,
                },
            ),
        }
    }

    /// What is to be done for every agent, in the order of the agents.
    pub fn write_all(&self, home: Option<&str>) -> (r: Result<Vec<AgentResult>, ConfigError>)
        ensures
            plans_view(r) == generated(
                self.resolved.agents@,
                self.resolved.sources@,
                opt_str(home),
            ),
            r is Ok <==> can_generate(self.resolved.agents@),
    {
        let agents = match self.merge() {
            Err(e) => {
                return Err(e);
            },
            Ok(agents) => agents,
        };
        let ghost all = draft_views(agents@);
        let ghost sources = self.resolved.sources@;
        let mut agents = agents;
        let mut results: Vec<AgentResult> = Vec::new();
        let n = agents.len();
        let mut i: usize = 0;
        proof {
            assert(result_views(results@) =~= Seq::<AgentResultView>::empty());
            assert(all.take(0) =~= Seq::<KdlAgentView>::empty());
        }
        while i < n
            invariant
                i <= n,
                n == all.len(),
                agents@.len() == n - i,
                sources == self.resolved.sources@,
                resolved_all(self.resolved.agents@, self.resolved.agents@) == Ok::<
                    Seq<KdlAgentView>,
                    ConfigErrorView,
                >(all),
                draft_views(agents@) =~= all.skip(i as int),
                planned_all(all.take(i as int), sources, opt_str(home)) == Ok::<
                    Seq<AgentResultView>,
                    ConfigErrorView,
                >(result_views(results@)),
            decreases n - i,
        {
            proof {
                let step = all.take(i as int + 1);
                assert(step.drop_last() =~= all.take(i as int));
                assert(step.last() == all[i as int]);
                assert(draft_views(agents@)[0] == all.skip(i as int)[0]);
            }
            let ghost rest = draft_views(agents@);
            let ghost before = result_views(results@);
            let agent = agents.remove(0);
            proof {
                assert(draft_views(agents@) =~= rest.skip(1));
                assert(rest.skip(1) =~= all.skip(i as int + 1));
            }
            match self.write(agent, home) {
                Err(e) => {
                    proof {
                        lemma_plan_error_stays(all, sources, opt_str(home), i as int + 1);
                        lemma_planned_all_pointwise(all, sources, opt_str(home));
                    }
                    return Err(e);
                },
                Ok(result) => {
                    results.push(result);
                    proof {
                        assert(result_views(results@) =~= before.push(result@));
                    }
                },
            }
            i += 1;
        }
        proof {
            assert(all.take(n as int) =~= all);
            lemma_planned_all_pointwise(all, sources, opt_str(home));
        }
        Ok(results)
    }
}

} // verus!
