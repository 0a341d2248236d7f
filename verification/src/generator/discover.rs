use vstd::prelude::*;
use vstd::string::StringExecFns;
use crate::config::agent::{KdlAgent, KdlAgentView};
use crate::config::generator_config::GeneratorConfig;
use crate::config::merge::merge_drafts;
use crate::generator::config_location::{agent_path, local_dir, ConfigLocation};
use crate::source::{
    agent_source_views, local_agent_path, AgentSource, AgentSourceView, KdlAgentSource, KdlSources,
    SourceList, SourceView,
};
use crate::text::Duplicate;
use crate::text_map::{
    assoc_distinct, assoc_get, assoc_has, assoc_keys, lemma_get, lemma_keys, StrMap,
};
use crate::text_set::{lemma_union, seq_union, StrSet};

verus! {

/// The documents that discovery works on, already read and parsed: for each layer
/// the document that declares all agents, and the files that agents have of their
/// own, by the agents' names.
#[derive(Debug, Clone, Default)]
pub struct DocumentSet {
    pub local_inline: GeneratorConfig,
    pub global_inline: GeneratorConfig,
    pub local_files: GeneratorConfig,
    pub global_files: GeneratorConfig,
}

/// What a set of documents holds.
pub struct DocumentSetView {
    pub local_inline: Seq<(Seq<char>, KdlAgentView)>,
    pub global_inline: Seq<(Seq<char>, KdlAgentView)>,
    pub local_files: Seq<(Seq<char>, KdlAgentView)>,
    pub global_files: Seq<(Seq<char>, KdlAgentView)>,
}

impl View for DocumentSet {
    type V = DocumentSetView;

    open spec fn view(&self) -> DocumentSetView {
        DocumentSetView {
            local_inline: self.local_inline@,
            global_inline: self.global_inline@,
            local_files: self.local_files@,
            global_files: self.global_files@,
        }
    }
}

/// The agents of a run with the sources of each.
#[derive(Debug, Clone, Default)]
pub struct ResolvedAgents {
    /// For every agent, what its sources give together.
    pub agents: StrMap<KdlAgent>,
    /// For every agent, its sources from the lowest precedence to the highest.
    pub sources: KdlSources,
}

/// The view of an optional draft.
pub open spec fn opt_draft(d: Option<KdlAgent>) -> Option<KdlAgentView> {
    match d {
        Some(a) => Some(a@),
        None => None,
    }
}

/// The view of an optional borrowed draft.
pub open spec fn opt_draft_ref(d: Option<&KdlAgent>) -> Option<KdlAgentView> {
    match d {
        Some(a) => Some(a@),
        None => None,
    }
}

/// What a source of lower precedence adds to what the sources above it gave: a
/// missing source adds nothing, the first source found is taken as it is, and any
/// other is merged in as the lower side.
pub open spec fn fold_in(acc: Option<KdlAgentView>, layer: Option<KdlAgentView>) -> Option<
    KdlAgentView,
> {
    match (acc, layer) {
        (None, l) => l,
        (Some(a), None) => Some(a),
        (Some(a), Some(l)) => Some(merge_drafts(a, l)),
    }
}

/// What a document or a set of files says of the agent `name`, where its layer is
/// read.
pub open spec fn found(read: bool, docs: Seq<(Seq<char>, KdlAgentView)>, name: Seq<char>) -> Option<
    KdlAgentView,
> {
    if read {
        assoc_get(docs, name)
    } else {
        None
    }
}

/// What the sources of the agent `name` give together. The precedence, from the
/// highest to the lowest: the project's document, the agent's file in the project,
/// the user's document, the agent's file of the user. The sources are folded in
/// that order, each as the lower side of a merge.
pub open spec fn layered(location: ConfigLocation, docs: DocumentSetView, name: Seq<char>) -> Option<
    KdlAgentView,
> {
    let local = location.spec_includes_local();
    let global = location.spec_includes_global();
    fold_in(
        fold_in(
            fold_in(
                fold_in(None, found(local, docs.local_inline, name)),
                found(local, docs.local_files, name),
            ),
            found(global, docs.global_inline, name),
        ),
        found(global, docs.global_files, name),
    )
}

/// The draft of the agent `name` after its layers are merged, under the name
/// `name`. There is none for an agent of which no layer that is read says anything.
pub open spec fn resolved_layers(
    location: ConfigLocation,
    docs: DocumentSetView,
    name: Seq<char>,
) -> Option<KdlAgentView> {
    match layered(location, docs, name) {
        Some(d) => Some(KdlAgentView { name, ..d }),
        None => None,
    }
}

/// What the sources found so far have decided is not changed by a source of lower
/// precedence: neither a description, a prompt or a model, nor the two marks.
pub proof fn lemma_fold_keeps_decided(acc: KdlAgentView, layer: Option<KdlAgentView>)
    ensures
        fold_in(Some(acc), layer) is Some,
        acc.description is Some ==> fold_in(Some(acc), layer)->Some_0.description
            == acc.description,
        acc.prompt is Some ==> fold_in(Some(acc), layer)->Some_0.prompt == acc.prompt,
        acc.model is Some ==> fold_in(Some(acc), layer)->Some_0.model == acc.model,
        acc.template is Some ==> fold_in(Some(acc), layer)->Some_0.template == acc.template,
        acc.include_mcp_json is Some ==> fold_in(Some(acc), layer)->Some_0.include_mcp_json
            == acc.include_mcp_json,
{
}

/// What the project's document decides for an agent is what the agent has, whatever
/// the sources of lower precedence say.
pub proof fn lemma_local_inline_wins(
    location: ConfigLocation,
    docs: DocumentSetView,
    name: Seq<char>,
)
    requires
        location.spec_includes_local(),
        assoc_get(docs.local_inline, name) is Some,
    ensures
        resolved_layers(location, docs, name) is Some,
        ({
            let top = assoc_get(docs.local_inline, name)->Some_0;
            let all = resolved_layers(location, docs, name)->Some_0;
            &&& all.name == name
            &&& top.description is Some ==> all.description == top.description
            &&& top.prompt is Some ==> all.prompt == top.prompt
            &&& top.model is Some ==> all.model == top.model
            &&& top.template is Some ==> all.template == top.template
            &&& top.include_mcp_json is Some ==> all.include_mcp_json == top.include_mcp_json
        }),
{
    let local = location.spec_includes_local();
    let global = location.spec_includes_global();
    let top = assoc_get(docs.local_inline, name)->Some_0;
    let one = fold_in(None, found(local, docs.local_inline, name));
    assert(one == Some(top));
    let two = fold_in(one, found(local, docs.local_files, name));
    lemma_fold_keeps_decided(top, found(local, docs.local_files, name));
    let three = fold_in(two, found(global, docs.global_inline, name));
    lemma_fold_keeps_decided(two->Some_0, found(global, docs.global_inline, name));
    lemma_fold_keeps_decided(three->Some_0, found(global, docs.global_files, name));
}

/// One source, if it is there.
pub open spec fn source_if(there: bool, source: SourceView) -> Seq<SourceView> {
    if there {
        seq![source]
    } else {
        Seq::empty()
    }
}

/// The path of the file of its own that the agent `name` has with the user.
pub open spec fn global_file_path(location: ConfigLocation, name: Seq<char>) -> Seq<char> {
    match location.spec_global_dir() {
        Some(dir) => agent_path(dir, name),
        None => Seq::empty(),
    }
}

/// The sources of the user's layer for the agent `name`, the lower first.
pub open spec fn global_sources(
    location: ConfigLocation,
    docs: DocumentSetView,
    name: Seq<char>,
) -> Seq<SourceView> {
    let global = location.spec_includes_global();
    source_if(
        found(global, docs.global_files, name) is Some,
        SourceView::GlobalFile(global_file_path(location, name)),
    ) + source_if(found(global, docs.global_inline, name) is Some, SourceView::GlobalInline)
}

/// The sources of the project's layer for the agent `name`, the lower first.
pub open spec fn local_sources(
    location: ConfigLocation,
    docs: DocumentSetView,
    name: Seq<char>,
) -> Seq<SourceView> {
    let local = location.spec_includes_local();
    source_if(
        found(local, docs.local_files, name) is Some,
        SourceView::LocalFile(agent_path(local_dir(), name)),
    ) + source_if(found(local, docs.local_inline, name) is Some, SourceView::LocalInline)
}

/// The sources of the agent `name`, from the lowest precedence to the highest.
pub open spec fn sources_for(
    location: ConfigLocation,
    docs: DocumentSetView,
    name: Seq<char>,
) -> Seq<SourceView> {
    global_sources(location, docs, name) + local_sources(location, docs, name)
}

/// An agent has a source in the project exactly when its source of the highest
/// precedence is one, and it has no source at all exactly when no layer says
/// anything of it.
pub proof fn lemma_sources_match_layers(
    location: ConfigLocation,
    docs: DocumentSetView,
    name: Seq<char>,
)
    ensures
        crate::source::any_local(sources_for(location, docs, name)) <==> sources_for(
            location,
            docs,
            name,
        ).len() > 0 && sources_for(location, docs, name).last().is_local(),
        sources_for(location, docs, name).len() == 0 <==> layered(location, docs, name) is None,
        sources_for(location, docs, name).len() <= 4,
{
    let all = sources_for(location, docs, name);
    let global = global_sources(location, docs, name);
    let local = local_sources(location, docs, name);
    assert forall|i: int| 0 <= i < global.len() implies !(#[trigger] global[i]).is_local() by {}
    assert forall|i: int| 0 <= i < local.len() implies (#[trigger] local[i]).is_local() by {}
    if crate::source::any_local(all) {
        let i = choose|i: int| 0 <= i < all.len() && (#[trigger] all[i]).is_local();
        if i < global.len() {
            assert(all[i] == global[i]);
        }
        assert(local.len() > 0);
        assert(all.last() == local.last());
    }
    if all.len() > 0 && all.last().is_local() {
        assert(all[all.len() - 1].is_local());
    }
}

/// The names that a document declares, where its layer is read.
pub open spec fn read_names(read: bool, doc: Seq<(Seq<char>, KdlAgentView)>) -> Seq<Seq<char>> {
    if read {
        assoc_keys(doc)
    } else {
        Seq::empty()
    }
}

/// The names of all agents: those that the project's document declares, then those
/// that only the user's document declares. A document counts only where its layer
/// is read, so every agent that is named has a source.
pub open spec fn agent_names(location: ConfigLocation, docs: DocumentSetView) -> Seq<Seq<char>> {
    seq_union(
        read_names(location.spec_includes_local(), docs.local_inline),
        read_names(location.spec_includes_global(), docs.global_inline),
    )
}

/// Whether a document of a layer that is read declares the agent `name`.
pub open spec fn declared(location: ConfigLocation, docs: DocumentSetView, name: Seq<char>) -> bool {
    ||| location.spec_includes_local() && assoc_has(docs.local_inline, name)
    ||| location.spec_includes_global() && assoc_has(docs.global_inline, name)
}

/// The agents that are named are those that a document of a layer that is read
/// declares, and no name comes twice where no document has a name twice.
pub proof fn lemma_agent_names(location: ConfigLocation, docs: DocumentSetView)
    ensures
        forall|n: Seq<char>| #[trigger]
            agent_names(location, docs).contains(n) <==> declared(location, docs, n),
        assoc_distinct(docs.local_inline) ==> agent_names(location, docs).no_duplicates(),
{
    let local = read_names(location.spec_includes_local(), docs.local_inline);
    let global = read_names(location.spec_includes_global(), docs.global_inline);
    lemma_union(local, global);
    lemma_keys(docs.local_inline);
    lemma_keys(docs.global_inline);
    assert forall|n: Seq<char>| #[trigger]
        agent_names(location, docs).contains(n) <==> declared(location, docs, n) by {
        if !location.spec_includes_local() {
            assert(!local.contains(n));
        }
        if !location.spec_includes_global() {
            assert(!global.contains(n));
        }
    }
}

/// An agent that a document of a layer that is read declares has a source and a
/// draft: the declaration itself is one of its sources.
pub proof fn lemma_declared_has_source(
    location: ConfigLocation,
    docs: DocumentSetView,
    name: Seq<char>,
)
    requires
        declared(location, docs, name),
    ensures
        sources_for(location, docs, name).len() > 0,
        layered(location, docs, name) is Some,
        resolved_layers(location, docs, name) is Some,
        resolved_layers(location, docs, name)->Some_0.name == name,
{
    lemma_get(docs.local_inline, name);
    lemma_get(docs.global_inline, name);
    let local = location.spec_includes_local();
    let global = location.spec_includes_global();
    let one = fold_in(None, found(local, docs.local_inline, name));
    let two = fold_in(one, found(local, docs.local_files, name));
    let three = fold_in(two, found(global, docs.global_inline, name));
    if local && assoc_has(docs.local_inline, name) {
        assert(one is Some);
        assert(two is Some);
        assert(three is Some);
        assert(local_sources(location, docs, name).len() > 0);
    } else {
        assert(found(global, docs.global_inline, name) is Some);
        assert(three is Some);
        assert(global_sources(location, docs, name).len() > 0);
    }
}

/// The names of all agents that the documents of the layers that are read declare.
pub fn all_names(
    location: &ConfigLocation,
    local_inline: &GeneratorConfig,
    global_inline: &GeneratorConfig,
) -> (names: StrSet)
    ensures
        names@ == seq_union(
            read_names(location.spec_includes_local(), local_inline@),
            read_names(location.spec_includes_global(), global_inline@),
        ),
        forall|n: Seq<char>| #[trigger]
            names@.contains(n) <==> (location.spec_includes_local() && assoc_has(local_inline@, n))
                || (location.spec_includes_global() && assoc_has(global_inline@, n)),
{
    let mut names = if location.includes_local() {
        local_inline.names()
    } else {
        StrSet::new()
    };
    let ghost local = read_names(location.spec_includes_local(), local_inline@);
    let ghost global = read_names(location.spec_includes_global(), global_inline@);
    proof {
        lemma_union(local, global);
        lemma_keys(local_inline@);
        lemma_keys(global_inline@);
        assert forall|n: Seq<char>| !location.spec_includes_local() implies !local.contains(n) by {}
        assert forall|n: Seq<char>| !location.spec_includes_global() implies !global.contains(n) by {}
    }
    if location.includes_global() {
        let global_names = global_inline.names();
        names.extend(&global_names);
    }
    names
}

/// What a source of lower precedence adds to what the sources above it gave.
pub fn fold_source(acc: Option<KdlAgent>, layer: Option<&KdlAgent>) -> (r: Option<KdlAgent>)
    ensures
        opt_draft(r) == fold_in(opt_draft(acc), opt_draft_ref(layer)),
{
    match acc {
        None => match layer {
            Some(l) => Some(l.duplicate()),
            None => None,
        },
        Some(a) => match layer {
            Some(l) => Some(a.merge(l.duplicate())),
            None => Some(a),
        },
    }
}

/// What a document or a set of files says of the agent `name`, where its layer is
/// read.
pub fn find<'a>(read: bool, docs: &'a GeneratorConfig, name: &str) -> (r: Option<&'a KdlAgent>)
    ensures
        opt_draft_ref(r) == found(read, docs@, name@),
{
    if read {
        docs.get(name)
    } else {
        None
    }
}

/// Adds the sources of the user's layer for the agent `name` to `sources`.
pub fn add_global(
    name: &str,
    location: &ConfigLocation,
    docs: &DocumentSet,
    sources: &mut SourceList,
)
    ensures
        final(sources)@ == old(sources)@ + global_sources(*location, docs@, name@),
{
    let ghost before = sources@;
    let global = location.includes_global();
    let file = find(global, &docs.global_files, name);
    let inline = find(global, &docs.global_inline, name);
    if file.is_some() {
        match location.global(name) {
            Some(path) => {
                sources.push(KdlAgentSource::GlobalFile(path));
            },
            None => {},
        }
    }
    if inline.is_some() {
        sources.push(KdlAgentSource::GlobalInline);
    }
    proof {
        assert(sources@ =~= before + global_sources(*location, docs@, name@));
    }
}

/// What the project's layer gives the agent `name`: the project's document over the
/// agent's file. Adds the sources found to `sources`.
pub fn process_local(
    name: &str,
    location: &ConfigLocation,
    docs: &DocumentSet,
    sources: &mut SourceList,
) -> (r: Option<KdlAgent>)
    ensures
        final(sources)@ == old(sources)@ + local_sources(*location, docs@, name@),
        opt_draft(r) == fold_in(
            fold_in(None, found(location.spec_includes_local(), docs@.local_inline, name@)),
            found(location.spec_includes_local(), docs@.local_files, name@),
        ),
{
    let ghost before = sources@;
    let local = location.includes_local();
    let file = find(local, &docs.local_files, name);
    let inline = find(local, &docs.local_inline, name);
    if file.is_some() {
        sources.push(KdlAgentSource::LocalFile(location.local(name)));
    }
    if inline.is_some() {
        sources.push(KdlAgentSource::LocalInline);
    }
    proof {
        assert(sources@ =~= before + local_sources(*location, docs@, name@));
    }
    fold_source(fold_source(None, inline), file)
}

/// The view of a draft with its sources, if there is one.
pub open spec fn opt_found(r: Option<(KdlAgent, SourceList)>) -> Option<
    (KdlAgentView, Seq<SourceView>),
> {
    match r {
        Some(pair) => Some((pair.0@, pair.1@)),
        None => None,
    }
}

/// The draft and the sources of the agent `name`, or nothing where no layer that is
/// read says anything of it.
pub fn discover_agent(name: &str, location: &ConfigLocation, docs: &DocumentSet) -> (r: Option<
    (KdlAgent, SourceList),
>)
    ensures
        opt_found(r) == match resolved_layers(*location, docs@, name@) {
            Some(draft) => Some((draft, sources_for(*location, docs@, name@))),
            None => None,
        },
        r is Some <==> sources_for(*location, docs@, name@).len() > 0,
        declared(*location, docs@, name@) ==> r is Some,
{
    let mut sources = SourceList::new();
    add_global(name, location, docs, &mut sources);
    let local = process_local(name, location, docs, &mut sources);
    let global = location.includes_global();
    let with_inline = fold_source(local, find(global, &docs.global_inline, name));
    let all = fold_source(with_inline, find(global, &docs.global_files, name));
    proof {
        assert(sources@ =~= sources_for(*location, docs@, name@));
        lemma_sources_match_layers(*location, docs@, name@);
        if declared(*location, docs@, name@) {
            lemma_declared_has_source(*location, docs@, name@);
        }
    }
    match all {
        Some(d) => {
            let mut d = d;
            d.name = name.to_owned();
            Some((d, sources))
        },
        None => None,
    }
}

/// Whether `agents` and `sources` are what discovery finds: one entry for each of
/// the agents that are named, in their order, with the draft that the agent's
/// sources give together and with those sources, of which there is at least one.
pub open spec fn discovered(
    location: ConfigLocation,
    docs: DocumentSetView,
    agents: Seq<(Seq<char>, KdlAgentView)>,
    sources: Seq<(Seq<char>, Seq<SourceView>)>,
) -> bool {
    let names = agent_names(location, docs);
    &&& agents.len() == names.len()
    &&& sources.len() == names.len()
    &&& forall|i: int|
        0 <= i < names.len() ==> {
            &&& (#[trigger] agents[i]).0 == names[i]
            &&& resolved_layers(location, docs, names[i]) == Some(agents[i].1)
        }
    &&& forall|i: int|
        0 <= i < names.len() ==> {
            &&& (#[trigger] sources[i]) == (names[i], sources_for(location, docs, names[i]))
            &&& sources[i].1.len() > 0
        }
}

/// Finds every agent that a document of a layer that is read declares and, for
/// each, merges what its sources say. The agents come in the order of
/// `agent_names`, and each has at least one source.
pub fn discover(location: &ConfigLocation, docs: &DocumentSet) -> (resolved: ResolvedAgents)
    ensures
        discovered(*location, docs@, resolved.agents@, resolved.sources@),
{
    let names = all_names(location, &docs.local_inline, &docs.global_inline);
    let mut agents: StrMap<KdlAgent> = StrMap::new();
    let mut sources = KdlSources(StrMap::new());
    let n = names.len();
    let mut i: usize = 0;
    while i < n
        invariant
            i <= n,
            n == names@.len(),
            names@ == agent_names(*location, docs@),
            names@.no_duplicates(),
            forall|k: Seq<char>| #[trigger]
                names@.contains(k) <==> declared(*location, docs@, k),
            agents@.len() == i,
            sources@.len() == i,
            forall|j: int|
                0 <= j < i ==> {
                    &&& (#[trigger] agents@[j]).0 == names@[j]
                    &&& resolved_layers(*location, docs@, names@[j]) == Some(agents@[j].1)
                },
            forall|j: int|
                0 <= j < i ==> {
                    &&& (#[trigger] sources@[j]) == (
                        names@[j],
                        sources_for(*location, docs@, names@[j]),
                    )
                    &&& sources@[j].1.len() > 0
                },
        decreases n - i,
    {
        let name = names.get(i);
        proof {
            assert(names@.contains(names@[i as int]));
            assert(!assoc_has(agents@, names@[i as int])) by {
                if assoc_has(agents@, names@[i as int]) {
                    let j = choose|j: int|
                        0 <= j < agents@.len() && (#[trigger] agents@[j]).0 == names@[i as int];
                    assert(names@[j] == names@[i as int]);
                }
            }
            assert(!assoc_has(sources@, names@[i as int])) by {
                if assoc_has(sources@, names@[i as int]) {
                    let j = choose|j: int|
                        0 <= j < sources@.len() && (#[trigger] sources@[j]).0 == names@[i as int];
                    assert(names@[j] == names@[i as int]);
                }
            }
        }
        match discover_agent(name.as_str(), location, docs) {
            Some((draft, list)) => {
                agents.insert(name.clone(), draft);
                sources.0.insert(name.clone(), list);
            },
            None => {
                assert(false);
            },
        }
        i += 1;
    }
    ResolvedAgents { agents, sources }
}

/// The sources of the project's layer for an agent whose declarations are kept as
/// text, the lower first: the agent's file, if it holds anything, then the
/// declaration in the project's document.
pub open spec fn local_text_sources(agent: Seq<char>, raw: Seq<char>, file: Seq<char>) -> Seq<
    AgentSourceView,
> {
    if file.len() > 0 {
        seq![AgentSourceView::LocalFile(local_agent_path(agent)), AgentSourceView::LocalInline(raw)]
    } else {
        seq![AgentSourceView::LocalInline(raw)]
    }
}

/// The sources of the user's layer for an agent whose declarations are kept as
/// text, the lower first: the agent's file in `dir`, then the declaration in the
/// user's document.
pub open spec fn global_text_sources(dir: Seq<char>, agent: Seq<char>, raw: Seq<char>) -> Seq<
    AgentSourceView,
> {
    seq![
        AgentSourceView::GlobalFile(dir + "/"@ + agent + ".toml"@),
        AgentSourceView::GlobalInline(raw),
    ]
}

/// The sources of an agent whose declarations are kept as text, from the lowest
/// precedence to the highest.
pub open spec fn text_sources(
    location: ConfigLocation,
    agent: Seq<char>,
    global_raw: Seq<char>,
    local_raw: Seq<char>,
    local_file: Seq<char>,
) -> Seq<AgentSourceView> {
    match location {
        ConfigLocation::Local => local_text_sources(agent, local_raw, local_file),
        ConfigLocation::Global(dir) => global_text_sources(dir@, agent, global_raw),
        ConfigLocation::Both(dir) => global_text_sources(dir@, agent, global_raw)
            + local_text_sources(agent, local_raw, local_file),
    }
}

/// Adds the sources of the project's layer for the agent `agent`, whose declaration
/// in the project's document is `raw` and whose own file holds `file`. An agent
/// with a file that holds something is noted in `local_agents`.
pub fn add_local(
    agent: &str,
    raw: String,
    file: &str,
    agent_sources: &mut Vec<AgentSource>,
    local_agents: &mut StrSet,
)
    ensures
        agent_source_views(final(agent_sources)@) == agent_source_views(old(agent_sources)@)
            + local_text_sources(agent@, raw@, file@),
        final(local_agents)@ == if file@.len() > 0 {
            crate::text_set::seq_insert(old(local_agents)@, agent@)
        } else {
            old(local_agents)@
        },
{
    let ghost before = agent_source_views(agent_sources@);
    let (local, empty) = AgentSource::new_local_agent(agent, file);
    if !empty {
        agent_sources.push(local);
        local_agents.insert(agent.to_owned());
    }
    agent_sources.push(AgentSource::LocalInline(raw));
    proof {
        assert(agent_source_views(agent_sources@) =~= before + local_text_sources(
            agent@,
            raw@,
            file@,
        ));
    }
}

/// The sources of the agent `agent` whose declarations are kept as text, from the
/// lowest precedence to the highest.
pub fn agent_sources(
    location: &ConfigLocation,
    agent: &str,
    global_raw: String,
    local_raw: String,
    local_file: &str,
    local_agents: &mut StrSet,
) -> (sources: Vec<AgentSource>)
    ensures
        agent_source_views(sources@) == text_sources(
            *location,
            agent@,
            global_raw@,
            local_raw@,
            local_file@,
        ),
        final(local_agents)@ == if location.spec_includes_local() && local_file@.len() > 0 {
            crate::text_set::seq_insert(old(local_agents)@, agent@)
        } else {
            old(local_agents)@
        },
{
    let mut sources: Vec<AgentSource> = Vec::new();
    proof {
        assert(agent_source_views(sources@) =~= Seq::<AgentSourceView>::empty());
    }
    match location {
        ConfigLocation::Local => {},
        ConfigLocation::Global(dir) => {
            sources.push(
                AgentSource::GlobalFile(dir.clone().concat("/").concat(agent).concat(".toml")),
            );
            sources.push(AgentSource::GlobalInline(global_raw));
        },
        ConfigLocation::Both(dir) => {
            sources.push(
                AgentSource::GlobalFile(dir.clone().concat("/").concat(agent).concat(".toml")),
            );
            sources.push(AgentSource::GlobalInline(global_raw));
        },
    }
    proof {
        match location {
            ConfigLocation::Local => {},
            ConfigLocation::Global(dir) => {
                assert(agent_source_views(sources@) =~= global_text_sources(
                    dir@,
                    agent@,
                    global_raw@,
                ));
            },
            ConfigLocation::Both(dir) => {
                assert(agent_source_views(sources@) =~= global_text_sources(
                    dir@,
                    agent@,
                    global_raw@,
                ));
            },
        }
    }
    if location.includes_local() {
        add_local(agent, local_raw, local_file, &mut sources, local_agents);
    }
    proof {
        assert(agent_source_views(sources@) =~= text_sources(
            *location,
            agent@,
            global_raw@,
            local_raw@,
            local_file@,
        ));
    }
    sources
}

} // verus!
