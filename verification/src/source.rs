use vstd::prelude::*;
use vstd::string::StringExecFns;
use crate::text::Duplicate;
use crate::text_map::{assoc_get, assoc_put, StrMap};
use crate::text_set::StrSet;

verus! {

/// Where a draft of an agent comes from.
#[derive(Debug, Clone, PartialEq, Eq)]
pub enum KdlAgentSource {
    /// The agent's own file in the project, with its path.
    LocalFile(String),
    /// The document of the project that declares all its agents.
    LocalInline,
    /// The agent's own file of the user, with its path.
    GlobalFile(String),
    /// The document of the user that declares all their agents.
    GlobalInline,
}

/// What a source holds.
pub enum SourceView {
    LocalFile(Seq<char>),
    LocalInline,
    GlobalFile(Seq<char>),
    GlobalInline,
}

impl View for KdlAgentSource {
    type V = SourceView;

    open spec fn view(&self) -> SourceView {
        match self {
            KdlAgentSource::LocalFile(p) => SourceView::LocalFile(p@),
            KdlAgentSource::LocalInline => SourceView::LocalInline,
            KdlAgentSource::GlobalFile(p) => SourceView::GlobalFile(p@),
            KdlAgentSource::GlobalInline => SourceView::GlobalInline,
        }
    }
}

impl SourceView {
    /// Whether the source belongs to the project.
    pub open spec fn is_local(self) -> bool {
        self is LocalFile || self is LocalInline
    }

    /// How a report names the source.
    pub open spec fn label(self) -> Seq<char> {
        match self {
            SourceView::GlobalInline => "global-inline"@,
            SourceView::GlobalFile(p) => p,
            SourceView::LocalInline => "local-inline"@,
            SourceView::LocalFile(p) => p,
        }
    }
}

impl KdlAgentSource {
    /// Whether the source belongs to the project.
    pub fn is_local(&self) -> (b: bool)
        ensures
            b == self@.is_local(),
    {
        match self {
            KdlAgentSource::LocalFile(_) => true,
            KdlAgentSource::LocalInline => true,
            _ => false,
        }
    }

    /// How a report names the source: a file by its path, a document by its kind.
    pub fn label(&self) -> (s: String)
        ensures
            s@ == self@.label(),
    {
        match self {
            KdlAgentSource::GlobalInline => String::from_str("global-inline"),
            KdlAgentSource::GlobalFile(p) => p.clone(),
            KdlAgentSource::LocalInline => String::from_str("local-inline"),
            KdlAgentSource::LocalFile(p) => p.clone(),
        }
    }
}

impl Duplicate for KdlAgentSource {
    fn duplicate(&self) -> (copy: KdlAgentSource) {
        match self {
            KdlAgentSource::LocalFile(p) => KdlAgentSource::LocalFile(p.clone()),
            KdlAgentSource::LocalInline => KdlAgentSource::LocalInline,
            KdlAgentSource::GlobalFile(p) => KdlAgentSource::GlobalFile(p.clone()),
            KdlAgentSource::GlobalInline => KdlAgentSource::GlobalInline,
        }
    }
}

/// The sources of one agent, from the lowest precedence to the highest.
#[derive(Debug, Clone, PartialEq, Eq, Default)]
pub struct SourceList {
    pub items: Vec<KdlAgentSource>,
}

/// The views of a list of sources.
pub open spec fn source_views(items: Seq<KdlAgentSource>) -> Seq<SourceView> {
    items.map_values(|s: KdlAgentSource| s@)
}

/// Whether one of the sources belongs to the project.
pub open spec fn any_local(sources: Seq<SourceView>) -> bool {
    exists|i: int| 0 <= i < sources.len() && (#[trigger] sources[i]).is_local()
}

impl View for SourceList {
    type V = Seq<SourceView>;

    open spec fn view(&self) -> Seq<SourceView> {
        source_views(self.items@)
    }
}

impl SourceList {
    /// No source.
    pub fn new() -> (list: SourceList)
        ensures
            list@ == Seq::<SourceView>::empty(),
    {
        let list = SourceList { items: Vec::new() };
        proof {
            assert(list@ =~= Seq::<SourceView>::empty());
        }
        list
    }

    /// Adds a source of higher precedence than those there.
    pub fn push(&mut self, source: KdlAgentSource)
        ensures
            final(self)@ == old(self)@.push(source@),
    {
        let ghost before = self@;
        self.items.push(source);
        proof {
            assert(self@ =~= before.push(source@));
        }
    }

    /// The number of sources.
    pub fn len(&self) -> (n: usize)
        ensures
            n == self@.len(),
    {
        self.items.len()
    }

    /// Whether one of the sources belongs to the project.
    pub fn is_local(&self) -> (b: bool)
        ensures
            b == any_local(self@),
    {
        let mut i: usize = 0;
        while i < self.items.len()
            invariant
                i <= self.items.len(),
                forall|j: int| 0 <= j < i ==> !(#[trigger] self@[j]).is_local(),
            decreases self.items.len() - i,
        {
            if self.items[i].is_local() {
                proof {
                    assert(self@[i as int].is_local());
                }
                return true;
            }
            i += 1;
        }
        false
    }
}

impl Duplicate for SourceList {
    fn duplicate(&self) -> (copy: SourceList) {
        let mut items: Vec<KdlAgentSource> = Vec::new();
        let mut i: usize = 0;
        while i < self.items.len()
            invariant
                i <= self.items.len(),
                source_views(items@) =~= source_views(self.items@).take(i as int),
            decreases self.items.len() - i,
        {
            let ghost before = source_views(items@);
            items.push(self.items[i].duplicate());
            proof {
                assert(source_views(items@) =~= before.push(self.items@[i as int]@));
            }
            i += 1;
        }
        proof {
            assert(source_views(self.items@).take(self.items.len() as int) =~= source_views(
                self.items@,
            ));
        }
        SourceList { items }
    }
}

/// The sources of every agent, by the agent's name.
#[derive(Debug, Clone, PartialEq, Eq, Default)]
pub struct KdlSources(pub StrMap<SourceList>);

impl View for KdlSources {
    type V = Seq<(Seq<char>, Seq<SourceView>)>;

    open spec fn view(&self) -> Seq<(Seq<char>, Seq<SourceView>)> {
        self.0@
    }
}

/// Whether the agent `name` has a source that belongs to the project.
pub open spec fn agent_is_local(sources: Seq<(Seq<char>, Seq<SourceView>)>, name: Seq<char>) -> bool {
    match assoc_get(sources, name) {
        Some(list) => any_local(list),
        None => false,
    }
}

impl KdlSources {
    /// For every name an empty list of sources.
    pub fn from_names(names: &StrSet) -> (sources: KdlSources)
        ensures
            sources@ == names@.map_values(|n: Seq<char>| (n, Seq::<SourceView>::empty())),
    {
        let ghost all = names@.map_values(|n: Seq<char>| (n, Seq::<SourceView>::empty()));
        let mut sources = KdlSources(StrMap::new());
        let n = names.len();
        let mut i: usize = 0;
        while i < n
            invariant
                i <= n,
                n == names@.len(),
                names@.no_duplicates(),
                all == names@.map_values(|n: Seq<char>| (n, Seq::<SourceView>::empty())),
                sources@ =~= all.take(i as int),
            decreases n - i,
        {
            proof {
                assert(!crate::text_map::assoc_has(sources@, names@[i as int])) by {
                    if crate::text_map::assoc_has(sources@, names@[i as int]) {
                        let j = choose|j: int|
                            0 <= j < sources@.len() && (#[trigger] sources@[j]).0
                                == names@[i as int];
                        assert(names@[j] == names@[i as int]);
                    }
                }
                assert(all.take(i as int + 1) =~= all.take(i as int).push(all[i as int]));
            }
            sources.add(names.get(i).as_str());
            i += 1;
        }
        proof {
            assert(all.take(n as int) =~= all);
        }
        sources
    }

    /// Whether the agent `name` has a source that belongs to the project.
    pub fn is_local(&self, name: &str) -> (b: bool)
        ensures
            b == agent_is_local(self@, name@),
    {
        match self.0.get(name) {
            Some(list) => list.is_local(),
            None => false,
        }
    }

    /// Gives the agent `name` an empty list of sources.
    pub fn add(&mut self, name: &str)
        ensures
            final(self)@ == assoc_put(old(self)@, name@, Seq::<SourceView>::empty()),
    {
        self.0.insert(name.to_owned(), SourceList::new());
    }

    /// The sources of the agent `name`.
    pub fn get(&self, name: &str) -> (found: Option<&SourceList>)
        ensures
            match found {
                Some(list) => assoc_get(self@, name@) == Some(list@),
                None => assoc_get(self@, name@) is None,
            },
    {
        self.0.get(name)
    }
}

/// A source of an agent together with what it holds.
#[derive(Debug, Clone, PartialEq, Eq)]
pub enum AgentSource {
    /// A text that was given directly.
    Raw(String),
    /// The agent's own file in the project, with its path.
    LocalFile(String),
    /// The declaration in the project's document, with its text.
    LocalInline(String),
    /// The agent's own file of the user, with its path.
    GlobalFile(String),
    /// The declaration in the user's document, with its text.
    GlobalInline(String),
}

/// What a source with its text holds.
pub enum AgentSourceView {
    Raw(Seq<char>),
    LocalFile(Seq<char>),
    LocalInline(Seq<char>),
    GlobalFile(Seq<char>),
    GlobalInline(Seq<char>),
}

impl View for AgentSource {
    type V = AgentSourceView;

    open spec fn view(&self) -> AgentSourceView {
        match self {
            AgentSource::Raw(t) => AgentSourceView::Raw(t@),
            AgentSource::LocalFile(p) => AgentSourceView::LocalFile(p@),
            AgentSource::LocalInline(t) => AgentSourceView::LocalInline(t@),
            AgentSource::GlobalFile(p) => AgentSourceView::GlobalFile(p@),
            AgentSource::GlobalInline(t) => AgentSourceView::GlobalInline(t@),
        }
    }
}

/// The views of a list of sources with their texts.
pub open spec fn agent_source_views(items: Seq<AgentSource>) -> Seq<AgentSourceView> {
    items.map_values(|s: AgentSource| s@)
}

/// The path of the file of its own that the agent `name` has in the project.
pub open spec fn local_agent_path(name: Seq<char>) -> Seq<char> {
    ".kiro/generators/"@ + name + ".toml"@
}

impl AgentSource {
    /// How a report names the source.
    pub open spec fn spec_label(self) -> Seq<char> {
        match self {
            AgentSource::Raw(_) => "raw"@,
            AgentSource::GlobalInline(_) => "global-inline"@,
            AgentSource::LocalFile(path) => "file://"@ + path@,
            AgentSource::LocalInline(_) => "local-inline"@,
            AgentSource::GlobalFile(path) => "file://"@ + path@,
        }
    }

    /// The text that the source gives, where `file` is what was read from the file
    /// of a file source and `None` if it is missing or cannot be read.
    pub open spec fn spec_content(self, file: Option<Seq<char>>) -> Seq<char> {
        match self {
            AgentSource::Raw(content) => content@,
            AgentSource::GlobalInline(content) => content@,
            AgentSource::LocalInline(content) => content@,
            AgentSource::LocalFile(_) | AgentSource::GlobalFile(_) => match file {
                Some(text) => text,
                None => Seq::empty(),
            },
        }
    }

    /// Whether a report marks the source as empty: a declaration without text, or a
    /// file that is missing or cannot be read.
    pub open spec fn spec_is_blank(self, file: Option<Seq<char>>) -> bool {
        match self {
            AgentSource::Raw(_) => false,
            AgentSource::GlobalInline(content) => content@.len() == 0,
            AgentSource::LocalInline(content) => content@.len() == 0,
            AgentSource::LocalFile(_) | AgentSource::GlobalFile(_) => file is None,
        }
    }

    /// How a report names the source.
    pub fn to_string(&self) -> (s: String)
        ensures
            s@ == self.spec_label(),
    {
        match self {
            AgentSource::Raw(_) => String::from_str("raw"),
            AgentSource::GlobalInline(_) => String::from_str("global-inline"),
            AgentSource::LocalFile(path) => String::from_str("file://").concat(path.as_str()),
            AgentSource::LocalInline(_) => String::from_str("local-inline"),
            AgentSource::GlobalFile(path) => String::from_str("file://").concat(path.as_str()),
        }
    }

    /// The source that the file of its own of the agent `name` in the project is,
    /// and whether that file, whose text is `content`, is empty.
    pub fn new_local_agent(name: &str, content: &str) -> (r: (AgentSource, bool))
        ensures
            r.0@ == AgentSourceView::LocalFile(local_agent_path(name@)),
            r.1 == (content@.len() == 0),
    {
        let location = String::from_str(".kiro/generators/").concat(name).concat(".toml");
        (AgentSource::LocalFile(location), content.is_empty())
    }

    /// The text that the source gives.
    pub fn to_source(&self, file: Option<&str>) -> (text: String)
        ensures
            text@ == self.spec_content(
                match file {
                    Some(t) => Some(t@),
                    None => None,
                },
            ),
    {
        match self {
            AgentSource::GlobalInline(content) => content.clone(),
            AgentSource::LocalInline(content) => content.clone(),
            AgentSource::Raw(content) => content.clone(),
            AgentSource::GlobalFile(_) => match file {
                Some(t) => t.to_owned(),
                None => String::new(),
            },
            AgentSource::LocalFile(_) => match file {
                Some(t) => t.to_owned(),
                None => String::new(),
            },
        }
    }

    /// Whether a report marks the source as empty.
    pub fn is_blank(&self, file: Option<&str>) -> (b: bool)
        ensures
            b == self.spec_is_blank(
                match file {
                    Some(t) => Some(t@),
                    None => None,
                },
            ),
    {
        match self {
            AgentSource::Raw(_) => false,
            AgentSource::GlobalInline(content) => content.as_str().is_empty(),
            AgentSource::LocalInline(content) => content.as_str().is_empty(),
            AgentSource::GlobalFile(_) => file.is_none(),
            AgentSource::LocalFile(_) => file.is_none(),
        }
    }
}

} // verus!
