use vstd::prelude::*;
use crate::text::{copy_opt_text, copy_texts, opt_text, texts, Duplicate};
use crate::text_map::StrMap;

verus! {

/// How a server is reached.
#[derive(Debug, Clone, Copy, PartialEq, Eq, Structural)]
pub enum TransportType {
    /// A local process that talks over its standard input and output.
    Stdio,
    /// A remote endpoint that talks HTTP.
    Http,
}

impl Default for TransportType {
    fn default() -> (t: TransportType)
        ensures
            t == TransportType::Stdio,
    {
        TransportType::Stdio
    }
}

/// How a server's OAuth flow is configured.
#[derive(Debug, Clone, PartialEq, Eq)]
pub struct OAuthConfig {
    /// The address the flow redirects to, such as "127.0.0.1:7778".
    pub redirect_uri: Option<String>,
}

impl View for OAuthConfig {
    type V = Option<Seq<char>>;

    open spec fn view(&self) -> Option<Seq<char>> {
        opt_text(self.redirect_uri)
    }
}

/// The view of an optional OAuth configuration.
pub open spec fn opt_oauth(o: Option<OAuthConfig>) -> Option<Option<Seq<char>>> {
    match o {
        Some(c) => Some(c@),
        None => None,
    }
}

/// The declaration of one server.
#[derive(Debug, Clone, PartialEq, Eq)]
pub struct CustomToolConfig {
    /// How the server is reached.
    pub transport: TransportType,
    /// The address of a remote server.
    pub url: String,
    /// The HTTP headers sent to a remote server.
    pub headers: StrMap<String>,
    /// The OAuth configuration, if any.
    pub oauth: Option<OAuthConfig>,
    /// The command that starts a local server.
    pub command: String,
    /// The arguments of the command.
    pub args: Vec<String>,
    /// The environment of the command.
    pub env: StrMap<String>,
    /// The time a request may take, in milliseconds; 0 stands for the default.
    pub timeout: u64,
    /// Whether the server is left out.
    pub disabled: bool,
}

/// What a server declaration holds.
pub struct CustomToolConfigView {
    pub transport: TransportType,
    pub url: Seq<char>,
    pub headers: Seq<(Seq<char>, Seq<char>)>,
    pub oauth: Option<Option<Seq<char>>>,
    pub command: Seq<char>,
    pub args: Seq<Seq<char>>,
    pub env: Seq<(Seq<char>, Seq<char>)>,
    pub timeout: u64,
    pub disabled: bool,
}

impl View for CustomToolConfig {
    type V = CustomToolConfigView;

    open spec fn view(&self) -> CustomToolConfigView {
        CustomToolConfigView {
            transport: self.transport,
            url: self.url@,
            headers: self.headers@,
            oauth: opt_oauth(self.oauth),
            command: self.command@,
            args: texts(self.args@),
            env: self.env@,
            timeout: self.timeout,
            disabled: self.disabled,
        }
    }
}

/// The timeout, in milliseconds, of a server that declares none.
pub open spec fn spec_tool_default_timeout() -> u64 {
    120000
}

/// The timeout, in milliseconds, of a server that declares none.
#[verifier::when_used_as_spec(spec_tool_default_timeout)]
pub fn tool_default_timeout() -> (t: u64)
    ensures
        t == 120000,
{
    120 * 1000
}

/// The timeout that a declared timeout stands for: the default for 0, else itself.
pub open spec fn spec_resolve_timeout(declared: u64) -> u64 {
    if declared == 0 {
        spec_tool_default_timeout()
    } else {
        declared
    }
}

/// The timeout that a declared timeout stands for: the default for 0, else itself.
#[verifier::when_used_as_spec(spec_resolve_timeout)]
pub fn resolve_timeout(declared: u64) -> (t: u64)
    ensures
        t == spec_resolve_timeout(declared),
        declared == 0 ==> t == 120000,
        declared != 0 ==> t == declared,
{
    if declared == 0 {
        tool_default_timeout()
    } else {
        declared
    }
}

/// The transport that a command stands for: a local process where there is a
/// command, a remote endpoint where there is none.
pub open spec fn transport_for(command: Seq<char>) -> TransportType {
    if command.len() == 0 {
        TransportType::Http
    } else {
        TransportType::Stdio
    }
}

/// A server declaration with its timeout resolved.
pub open spec fn with_resolved_timeout(c: CustomToolConfigView) -> CustomToolConfigView {
    CustomToolConfigView { timeout: spec_resolve_timeout(c.timeout), ..c }
}

impl CustomToolConfig {
    /// The same declaration with the default timeout in place of 0.
    pub fn resolved(&self) -> (r: CustomToolConfig)
        ensures
            r@ == with_resolved_timeout(self@),
    {
        let mut r = self.duplicate();
        r.timeout = resolve_timeout(self.timeout);
        r
    }
}

impl Duplicate for OAuthConfig {
    fn duplicate(&self) -> (copy: OAuthConfig) {
        OAuthConfig { redirect_uri: copy_opt_text(&self.redirect_uri) }
    }
}

impl Duplicate for CustomToolConfig {
    fn duplicate(&self) -> (copy: CustomToolConfig) {
        let args = copy_texts(&self.args);
        CustomToolConfig {
            transport: self.transport,
            url: self.url.clone(),
            headers: self.headers.duplicate(),
            oauth: match &self.oauth {
                Some(o) => Some(o.duplicate()),
                None => None,
            },
            command: self.command.clone(),
            args,
            env: self.env.duplicate(),
            timeout: self.timeout,
            disabled: self.disabled,
        }
    }
}

} // verus!
