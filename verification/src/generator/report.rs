use vstd::prelude::*;
use vstd::string::StrSliceExecFns;
use crate::agent::custom_tool::{CustomToolConfig, CustomToolConfigView};
use crate::generator::generate::{result_views, AgentResult, AgentResultView};
use crate::text::texts;
use crate::text_map::{assoc_get, StrMap};

verus! {

/// The names of the servers that are not left out, in order.
pub open spec fn enabled_servers(servers: Seq<(Seq<char>, CustomToolConfigView)>) -> Seq<Seq<char>>
    decreases servers.len(),
{
    if servers.len() == 0 {
        Seq::empty()
    } else if servers.last().1.disabled {
        enabled_servers(servers.drop_last())
    } else {
        enabled_servers(servers.drop_last()).push(servers.last().0)
    }
}

/// The number of bytes that a text takes.
pub open spec fn byte_len(text: Seq<char>) -> nat {
    vstd::utf8::encode_utf8(text).len()
}

/// Whether a pattern names a server or a tool of a server.
pub open spec fn names_server(tool: Seq<char>) -> bool {
    tool.len() > 0 && tool[0] == '@'
}

/// Whether a report shows an allowed tool: a pattern of at least two bytes that, if
/// it begins with `@`, names with the rest a server that is there and not left out.
pub open spec fn tool_is_shown(tool: Seq<char>, servers: Seq<(Seq<char>, CustomToolConfigView)>) -> bool {
    byte_len(tool) >= 2 && (names_server(tool) ==> match assoc_get(
        servers,
        tool.subrange(1, tool.len() as int),
    ) {
        Some(server) => !server.disabled,
        None => false,
    })
}

/// The allowed tools that a report shows, in order.
pub open spec fn shown_tools(
    allowed: Seq<Seq<char>>,
    servers: Seq<(Seq<char>, CustomToolConfigView)>,
) -> Seq<Seq<char>>
    decreases allowed.len(),
{
    if allowed.len() == 0 {
        Seq::empty()
    } else if tool_is_shown(allowed.last(), servers) {
        shown_tools(allowed.drop_last(), servers).push(allowed.last())
    } else {
        shown_tools(allowed.drop_last(), servers)
    }
}

/// Where a report places an agent.
#[derive(Debug, Clone, Copy, PartialEq, Eq, Structural)]
pub enum Placement {
    /// A template: it is placed nowhere.
    Template,
    /// With the user.
    Global,
    /// In the project.
    Local,
}

/// Where a report places an agent: a template nowhere, an agent whose directory is
/// an absolute path with the user, any other in the project.
pub open spec fn placement_of(result: AgentResultView) -> Placement {
    if result.agent.template == Some(true) {
        Placement::Template
    } else if result.destination.len() > 0 && result.destination[0] == '/' {
        Placement::Global
    } else {
        Placement::Local
    }
}

/// Whether one of the plans is for an agent of the project.
pub open spec fn any_result_local(results: Seq<AgentResultView>) -> bool {
    exists|i: int| 0 <= i < results.len() && (#[trigger] results[i]).local
}

/// The plans for agents of the project, in order.
pub open spec fn local_results(results: Seq<AgentResultView>) -> Seq<AgentResultView>
    decreases results.len(),
{
    if results.len() == 0 {
        Seq::empty()
    } else if results.last().local {
        local_results(results.drop_last()).push(results.last())
    } else {
        local_results(results.drop_last())
    }
}

/// The plans that a run reports: those for agents of the project where there is
/// one, else all.
pub open spec fn reported_results(results: Seq<AgentResultView>) -> Seq<AgentResultView> {
    if any_result_local(results) {
        local_results(results)
    } else {
        results
    }
}

/// Whether the servers hold an enabled server of the name `name`.
pub fn server_enabled(servers: &StrMap<CustomToolConfig>, name: &str) -> (b: bool)
    ensures
        b == match assoc_get(servers@, name@) {
            Some(server) => !server.disabled,
            None => false,
        },
{
    match servers.get(name) {
        Some(server) => !server.disabled,
        None => false,
    }
}

impl AgentResult {
    /// The names of the agent's servers that are not left out.
    pub fn enabled_servers(&self) -> (names: Vec<String>)
        ensures
            texts(names@) == enabled_servers(self@.agent.mcp),
    {
        let servers = &self.agent.mcp;
        let mut names: Vec<String> = Vec::new();
        let n = servers.len();
        let mut i: usize = 0;
        proof {
            assert(servers@.take(0) =~= Seq::<(Seq<char>, CustomToolConfigView)>::empty());
            assert(texts(names@) =~= Seq::<Seq<char>>::empty());
        }
        while i < n
            invariant
                i <= n,
                n == servers@.len(),
                texts(names@) == enabled_servers(servers@.take(i as int)),
            decreases n - i,
        {
            proof {
                let step = servers@.take(i as int + 1);
                assert(step.drop_last() =~= servers@.take(i as int));
                assert(step.last() == servers@[i as int]);
            }
            if !servers.value_at(i).disabled {
                let ghost before = texts(names@);
                names.push(servers.key_at(i).clone());
                proof {
                    assert(texts(names@) =~= before.push(servers@[i as int].0));
                }
            }
            i += 1;
        }
        proof {
            assert(servers@.take(n as int) =~= servers@);
        }
        names
    }

    /// The allowed tools that a report shows.
    pub fn enabled_tools(&self) -> (tools: Vec<String>)
        ensures
            texts(tools@) == shown_tools(self@.agent.allowed_tools, self@.agent.mcp),
    {
        let allowed = &self.agent.allowed_tools;
        let servers = &self.agent.mcp;
        let mut tools: Vec<String> = Vec::new();
        let n = allowed.len();
        let mut i: usize = 0;
        proof {
            assert(allowed@.take(0) =~= Seq::<Seq<char>>::empty());
            assert(texts(tools@) =~= Seq::<Seq<char>>::empty());
        }
        while i < n
            invariant
                i <= n,
                n == allowed@.len(),
                texts(tools@) == shown_tools(allowed@.take(i as int), servers@),
            decreases n - i,
        {
            proof {
                let step = allowed@.take(i as int + 1);
                assert(step.drop_last() =~= allowed@.take(i as int));
                assert(step.last() == allowed@[i as int]);
            }
            let tool = allowed.get(i);
            let text = tool.as_str();
            let mut shown = text.as_bytes().len() >= 2;
            if shown {
                let chars = text.unicode_len();
                if chars > 0 && text.get_char(0) == '@' {
                    shown = server_enabled(servers, text.substring_char(1, chars));
                }
            }
            if shown {
                let ghost before = texts(tools@);
                tools.push(tool.clone());
                proof {
                    assert(texts(tools@) =~= before.push(allowed@[i as int]));
                }
            }
            i += 1;
        }
        proof {
            assert(allowed@.take(n as int) =~= allowed@);
        }
        tools
    }

    /// Where a report places the agent.
    pub fn placement(&self) -> (p: Placement)
        ensures
            p == placement_of(self@),
    {
        if self.agent.is_template() {
            Placement::Template
        } else {
            let path = self.destination.as_str();
            if path.unicode_len() > 0 && path.get_char(0) == '/' {
                Placement::Global
            } else {
                Placement::Local
            }
        }
    }

    /// Whether a report lists the agent: a template only if templates are asked for.
    pub fn is_listed(&self, show_skeletons: bool) -> (b: bool)
        ensures
            b == (show_skeletons || self@.agent.template != Some(true)),
    {
        show_skeletons || !self.agent.is_template()
    }
}

/// Whether one of the plans is for an agent of the project.
pub fn has_local(results: &Vec<AgentResult>) -> (b: bool)
    ensures
        b == any_result_local(result_views(results@)),
{
    let mut i: usize = 0;
    while i < results.len()
        invariant
            i <= results.len(),
            forall|j: int| 0 <= j < i ==> !(#[trigger] result_views(results@)[j]).local,
        decreases results.len() - i,
    {
        if results[i].local {
            proof {
                assert(result_views(results@)[i as int].local);
            }
            return true;
        }
        i += 1;
    }
    false
}

/// The plans that a run reports: those for agents of the project where there is
/// one, else all.
pub fn reported(results: Vec<AgentResult>) -> (kept: Vec<AgentResult>)
    ensures
        result_views(kept@) == reported_results(result_views(results@)),
{
    if !has_local(&results) {
        return results;
    }
    let ghost all = result_views(results@);
    let mut rest = results;
    let mut kept: Vec<AgentResult> = Vec::new();
    let n = rest.len();
    let mut i: usize = 0;
    proof {
        assert(all.take(0) =~= Seq::<AgentResultView>::empty());
        assert(result_views(kept@) =~= Seq::<AgentResultView>::empty());
    }
    while i < n
        invariant
            i <= n,
            n == all.len(),
            rest@.len() == n - i,
            result_views(rest@) =~= all.skip(i as int),
            result_views(kept@) == local_results(all.take(i as int)),
        decreases n - i,
    {
        proof {
            let step = all.take(i as int + 1);
            assert(step.drop_last() =~= all.take(i as int));
            assert(step.last() == all[i as int]);
            assert(result_views(rest@)[0] == all.skip(i as int)[0]);
        }
        let ghost before_rest = result_views(rest@);
        let ghost before = result_views(kept@);
        let result = rest.remove(0);
        proof {
            assert(result_views(rest@) =~= before_rest.skip(1));
            assert(before_rest.skip(1) =~= all.skip(i as int + 1));
        }
        if result.local {
            kept.push(result);
            proof {
                assert(result_views(kept@) =~= before.push(result@));
            }
        }
        i += 1;
    }
    proof {
        assert(all.take(n as int) =~= all);
    }
    kept
}

} // verus!
