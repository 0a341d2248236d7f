use vstd::prelude::*;
use crate::agent::custom_tool::{
    resolve_timeout, spec_resolve_timeout, transport_for, CustomToolConfig, CustomToolConfigView,
    TransportType,
};
use crate::text::{copy_texts, texts};
use crate::text_map::{assoc_collect, StrMap};

verus! {

/// A key with its value, as a document gives an environment variable or a header.
#[derive(Debug, Clone, PartialEq, Eq)]
pub struct KeyValueDoc {
    pub key: String,
    pub value: String,
}

/// The arguments of a server's command, as a document gives them.
#[derive(Debug, Clone, PartialEq, Eq, Default)]
pub struct ToolArgs {
    pub args: Vec<String>,
}

/// The address an OAuth flow redirects to, as a document gives it.
#[derive(Debug, Clone, PartialEq, Eq)]
pub struct RedirectUri {
    pub value: String,
}

/// The OAuth configuration of a server, as a document gives it.
#[derive(Debug, Clone, PartialEq, Eq)]
pub struct OAuthConfig {
    pub redirect_uri: RedirectUri,
}

/// The address of a remote server, as a document gives it.
#[derive(Debug, Clone, PartialEq, Eq)]
pub struct Url {
    pub value: String,
}

/// The command of a local server, as a document gives it.
#[derive(Debug, Clone, PartialEq, Eq)]
pub struct Command {
    pub value: String,
}

/// The timeout of a server in milliseconds, as a document gives it.
#[derive(Debug, Clone, Copy, PartialEq, Eq)]
pub struct Timeout {
    pub value: u64,
}

/// Whether a server is left out, as a document says it.
#[derive(Debug, Clone, Copy, PartialEq, Eq)]
pub struct Disabled {
    pub value: bool,
}

/// One server, as a document declares it.
#[derive(Debug, Clone, PartialEq, Eq)]
pub struct CustomToolConfigKdl {
    pub name: String,
    pub url: Option<Url>,
    pub command: Option<Command>,
    pub oauth: Option<OAuthConfig>,
    pub args: Option<ToolArgs>,
    pub env: Vec<KeyValueDoc>,
    pub header: Vec<KeyValueDoc>,
    pub timeout: Option<Timeout>,
    pub disabled: Option<Disabled>,
}

/// The keys with their values, in the order of the document.
pub open spec fn pairs_of(docs: Seq<KeyValueDoc>) -> Seq<(Seq<char>, Seq<char>)> {
    docs.map_values(|d: KeyValueDoc| (d.key@, d.value@))
}

/// The map that a list of keys and values stands for: of two values of one key the
/// later one stays, at the place of the earlier.
pub fn collect_pairs(docs: &Vec<KeyValueDoc>) -> (map: StrMap<String>)
    ensures
        map@ == assoc_collect(pairs_of(docs@)),
{
    let ghost entries = pairs_of(docs@);
    let mut map: StrMap<String> = StrMap::new();
    let mut i: usize = 0;
    while i < docs.len()
        invariant
            i <= docs.len(),
            entries == pairs_of(docs@),
            map@ == assoc_collect(entries.take(i as int)),
        decreases docs.len() - i,
    {
        proof {
            let step = entries.take(i as int + 1);
            assert(step.drop_last() =~= entries.take(i as int));
            assert(step.last() == (docs@[i as int].key@, docs@[i as int].value@));
        }
        map.insert(docs[i].key.clone(), docs[i].value.clone());
        i += 1;
    }
    proof {
        assert(entries.take(docs.len() as int) =~= entries);
    }
    map
}

impl CustomToolConfigKdl {
    /// A declaration of the server `name` that says nothing else.
    pub fn new(name: &str) -> (doc: CustomToolConfigKdl)
        ensures
            doc.name@ == name@,
            doc.url is None,
            doc.command is None,
            doc.oauth is None,
            doc.args is None,
            doc.env@.len() == 0,
            doc.header@.len() == 0,
            doc.timeout is None,
            doc.disabled is None,
    {
        CustomToolConfigKdl {
            name: name.to_owned(),
            url: None,
            command: None,
            oauth: None,
            args: None,
            env: Vec::new(),
            header: Vec::new(),
            timeout: None,
            disabled: None,
        }
    }

    /// The declared command, or the empty text.
    pub open spec fn spec_command(self) -> Seq<char> {
        match self.command {
            Some(c) => c.value@,
            None => Seq::empty(),
        }
    }

    /// The declared address, or the empty text.
    pub open spec fn spec_url(self) -> Seq<char> {
        match self.url {
            Some(u) => u.value@,
            None => Seq::empty(),
        }
    }

    /// The declared arguments, or none.
    pub open spec fn spec_args(self) -> Seq<Seq<char>> {
        match self.args {
            Some(a) => texts(a.args@),
            None => Seq::empty(),
        }
    }

    /// The declared timeout, or 0.
    pub open spec fn spec_timeout(self) -> u64 {
        match self.timeout {
            Some(t) => t.value,
            None => 0,
        }
    }

    /// The server that the declaration stands for. What is not declared is empty,
    /// a timeout that is 0 or not declared is the default, and the transport
    /// follows from the command.
    pub open spec fn tool(self) -> CustomToolConfigView {
        CustomToolConfigView {
            transport: transport_for(self.spec_command()),
            url: self.spec_url(),
            headers: assoc_collect(pairs_of(self.header@)),
            oauth: match self.oauth {
                Some(o) => Some(Some(o.redirect_uri.value@)),
                None => None,
            },
            command: self.spec_command(),
            args: self.spec_args(),
            env: assoc_collect(pairs_of(self.env@)),
            timeout: spec_resolve_timeout(self.spec_timeout()),
            disabled: match self.disabled {
                Some(d) => d.value,
                None => false,
            },
        }
    }
}

impl CustomToolConfig {
    /// The server that a document's declaration stands for.
    pub fn from_kdl(value: &CustomToolConfigKdl) -> (config: CustomToolConfig)
        ensures
            config@ == value.tool(),
            value.spec_timeout() == 0 ==> config.timeout == 120000,
            value.spec_timeout() != 0 ==> config.timeout == value.spec_timeout(),
    {
        let command = match &value.command {
            Some(c) => c.value.clone(),
            None => String::new(),
        };
        let url = match &value.url {
            Some(u) => u.value.clone(),
            None => String::new(),
        };
        let args = match &value.args {
            Some(a) => copy_texts(&a.args),
            None => Vec::new(),
        };
        proof {
            assert(texts(args@) =~= value.spec_args());
        }
        let transport = if command.as_str().is_empty() {
            TransportType::Http
        } else {
            TransportType::Stdio
        };
        let declared = match value.timeout {
            Some(t) => t.value,
            None => 0,
        };
        CustomToolConfig {
            transport,
            url,
            headers: collect_pairs(&value.header),
            oauth: match &value.oauth {
                Some(o) => Some(
                    crate::agent::custom_tool::OAuthConfig {
                        redirect_uri: Some(o.redirect_uri.value.clone()),
                    },
                ),
                None => None,
            },
            command,
            args,
            env: collect_pairs(&value.env),
            timeout: resolve_timeout(declared),
            disabled: match value.disabled {
                Some(d) => d.value,
                None => false,
            },
        }
    }
}

} // verus!
