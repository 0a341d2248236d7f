use vstd::prelude::*;
use vstd::string::StringExecFns;

verus! {

/// Which layers of configuration are read: the project's, the user's, or both. The
/// user's layer comes with the directory that holds it.
#[derive(Debug, Clone, PartialEq, Eq)]
pub enum ConfigLocation {
    /// The project's layer alone.
    Local,
    /// The user's layer alone.
    Global(String),
    /// Both layers.
    Both(String),
}

/// The directory of the project's layer.
pub open spec fn local_dir() -> Seq<char> {
    ".kiro/generators"@
}

/// The path of the document in `dir` that declares all agents of a layer.
pub open spec fn aggregate_path(dir: Seq<char>) -> Seq<char> {
    dir + "/kg.kdl"@
}

/// The path of the file of its own that the agent `name` has in `dir`.
pub open spec fn agent_path(dir: Seq<char>, name: Seq<char>) -> Seq<char> {
    dir + "/"@ + name + ".kdl"@
}

impl ConfigLocation {
    /// Whether the project's layer is read.
    pub open spec fn spec_includes_local(&self) -> bool {
        self is Local || self is Both
    }

    /// Whether the user's layer is read.
    pub open spec fn spec_includes_global(&self) -> bool {
        self is Global || self is Both
    }

    /// The directory of the user's layer, where it is read.
    pub open spec fn spec_global_dir(&self) -> Option<Seq<char>> {
        match self {
            ConfigLocation::Local => None,
            ConfigLocation::Global(dir) => Some(dir@),
            ConfigLocation::Both(dir) => Some(dir@),
        }
    }

    /// Whether the project's layer is read.
    #[verifier::when_used_as_spec(spec_includes_local)]
    pub fn includes_local(&self) -> (b: bool)
        ensures
            b == self.spec_includes_local(),
    {
        match self {
            ConfigLocation::Local => true,
            ConfigLocation::Global(_) => false,
            ConfigLocation::Both(_) => true,
        }
    }

    /// Whether the user's layer is read.
    #[verifier::when_used_as_spec(spec_includes_global)]
    pub fn includes_global(&self) -> (b: bool)
        ensures
            b == self.spec_includes_global(),
    {
        match self {
            ConfigLocation::Local => false,
            ConfigLocation::Global(_) => true,
            ConfigLocation::Both(_) => true,
        }
    }

    /// The path of the project's document that declares all its agents.
    pub fn local_kg(&self) -> (path: String)
        ensures
            path@ == aggregate_path(local_dir()),
    {
        String::from_str(".kiro/generators").concat("/kg.kdl")
    }

    /// The path of the user's document that declares all their agents, where the
    /// user's layer is read.
    pub fn global_kg(&self) -> (path: Option<String>)
        ensures
            match self.spec_global_dir() {
                Some(dir) => path is Some && path->Some_0@ == aggregate_path(dir),
                None => path is None,
            },
    {
        match self {
            ConfigLocation::Local => None,
            ConfigLocation::Global(dir) => Some(dir.clone().concat("/kg.kdl")),
            ConfigLocation::Both(dir) => Some(dir.clone().concat("/kg.kdl")),
        }
    }

    /// The path of the file of its own that the agent `name` has in the project.
    pub fn local(&self, name: &str) -> (path: String)
        ensures
            path@ == agent_path(local_dir(), name@),
    {
        String::from_str(".kiro/generators").concat("/").concat(name).concat(".kdl")
    }

    /// The path of the file of its own that the agent `name` has with the user,
    /// where the user's layer is read.
    pub fn global(&self, name: &str) -> (path: Option<String>)
        ensures
            match self.spec_global_dir() {
                Some(dir) => path is Some && path->Some_0@ == agent_path(dir, name@),
                None => path is None,
            },
    {
        match self {
            ConfigLocation::Local => None,
            ConfigLocation::Global(dir) => Some(
                dir.clone().concat("/").concat(name).concat(".kdl"),
            ),
            ConfigLocation::Both(dir) => Some(dir.clone().concat("/").concat(name).concat(".kdl")),
        }
    }
}

} // verus!
