use vstd::prelude::*;
use crate::config::agent::{KdlAgent, KdlAgentDoc, KdlAgentView};
use crate::text_map::{assoc_collect, assoc_get, assoc_keys, StrMap};
use crate::text_set::StrSet;

verus! {

/// The agents that one document declares, in the order of the document.
#[derive(Debug, Clone, PartialEq, Eq, Default)]
pub struct GeneratorConfigDoc {
    pub agent: Vec<KdlAgentDoc>,
}

/// The drafts that one document gives, by the agents' names.
#[derive(Debug, Clone, Default)]
pub struct GeneratorConfig {
    pub agent: StrMap<KdlAgent>,
}

impl View for GeneratorConfig {
    type V = Seq<(Seq<char>, KdlAgentView)>;

    open spec fn view(&self) -> Seq<(Seq<char>, KdlAgentView)> {
        self.agent@
    }
}

/// The drafts that a document gives by name: of two declarations of one name the
/// later one stays, at the place of the earlier.
pub open spec fn drafts_of(docs: Seq<KdlAgentDoc>) -> Seq<(Seq<char>, KdlAgentView)> {
    assoc_collect(docs.map_values(|d: KdlAgentDoc| (d.name@, d.draft())))
}

impl GeneratorConfig {
    /// A document that declares no agent.
    pub fn new() -> (config: GeneratorConfig)
        ensures
            config@.len() == 0,
    {
        GeneratorConfig { agent: StrMap::new() }
    }

    /// The drafts that a document gives, by name.
    pub fn from_doc(value: &GeneratorConfigDoc) -> (config: GeneratorConfig)
        ensures
            config@ == drafts_of(value.agent@),
    {
        let ghost entries = value.agent@.map_values(|d: KdlAgentDoc| (d.name@, d.draft()));
        let mut agent: StrMap<KdlAgent> = StrMap::new();
        let mut i: usize = 0;
        while i < value.agent.len()
            invariant
                i <= value.agent.len(),
                entries == value.agent@.map_values(|d: KdlAgentDoc| (d.name@, d.draft())),
                agent@ == assoc_collect(entries.take(i as int)),
            decreases value.agent.len() - i,
        {
            proof {
                let step = entries.take(i as int + 1);
                assert(step.drop_last() =~= entries.take(i as int));
                assert(step.last() == (value.agent@[i as int].name@, value.agent@[i as int].draft()));
            }
            agent.insert(value.agent[i].name.clone(), KdlAgent::from_doc(&value.agent[i]));
            i += 1;
        }
        proof {
            assert(entries.take(value.agent.len() as int) =~= entries);
        }
        GeneratorConfig { agent }
    }

    /// The names of the declared agents, in order.
    pub fn names(&self) -> (names: StrSet)
        ensures
            names@ == assoc_keys(self@),
    {
        self.agent.keys()
    }

    /// The draft of the agent `name`, if the document declares it.
    pub fn get(&self, name: &str) -> (found: Option<&KdlAgent>)
        ensures
            match found {
                Some(draft) => assoc_get(self@, name@) == Some(draft@),
                None => assoc_get(self@, name@) is None,
            },
    {
        self.agent.get(name)
    }
}

} // verus!
