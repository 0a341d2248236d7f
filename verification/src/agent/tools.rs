use vstd::prelude::*;
use crate::text::Duplicate;
use crate::text_set::StrSet;

verus! {

/// A category of built-in tools whose use an agent can restrict.
#[derive(Debug, Clone, Copy, PartialEq, Eq, Hash, Structural)]
pub enum ToolTarget {
    /// Calls to the cloud API.
    Aws,
    /// Shell commands.
    Shell,
    /// Reading files.
    Read,
    /// Writing files.
    Write,
}

impl ToolTarget {
    /// The name of the category in a manifest's tool settings.
    pub open spec fn spec_name(self) -> Seq<char> {
        match self {
            ToolTarget::Aws => "aws"@,
            ToolTarget::Shell => "shell"@,
            ToolTarget::Read => "read"@,
            ToolTarget::Write => "write"@,
        }
    }

    /// The name of the category in a manifest's tool settings.
    pub fn as_ref(&self) -> (s: &'static str)
        ensures
            s@ == self.spec_name(),
    {
        match self {
            ToolTarget::Aws => "aws",
            ToolTarget::Shell => "shell",
            ToolTarget::Read => "read",
            ToolTarget::Write => "write",
        }
    }

    /// The name of the category, as an owned string.
    pub fn to_string(&self) -> (s: String)
        ensures
            s@ == self.spec_name(),
    {
        self.as_ref().to_owned()
    }
}

/// What a manifest says of calls to the cloud API.
#[derive(Debug, Clone, PartialEq, Eq)]
pub struct AwsTool {
    /// The services that may be called.
    pub allowed_services: StrSet,
    /// The services that may not be called.
    pub denied_services: StrSet,
    /// Whether calls that only read are approved beforehand.
    pub auto_allow_readonly: bool,
}

/// What the settings of the cloud API hold.
pub struct AwsToolView {
    pub allowed_services: Seq<Seq<char>>,
    pub denied_services: Seq<Seq<char>>,
    pub auto_allow_readonly: bool,
}

impl View for AwsTool {
    type V = AwsToolView;

    open spec fn view(&self) -> AwsToolView {
        AwsToolView {
            allowed_services: self.allowed_services@,
            denied_services: self.denied_services@,
            auto_allow_readonly: self.auto_allow_readonly,
        }
    }
}

/// The settings of an agent that says nothing of the cloud API.
pub open spec fn default_aws() -> AwsToolView {
    AwsToolView {
        allowed_services: Seq::empty(),
        denied_services: Seq::empty(),
        auto_allow_readonly: true,
    }
}

impl Default for AwsTool {
    fn default() -> (t: AwsTool)
        ensures
            t@ == default_aws(),
    {
        AwsTool {
            allowed_services: StrSet::new(),
            denied_services: StrSet::new(),
            auto_allow_readonly: true,
        }
    }
}

impl AwsTool {
    /// Whether these are the settings of an agent that says nothing of the cloud API.
    pub fn is_default(&self) -> (b: bool)
        ensures
            b == (self@ == default_aws()),
    {
        let b = self.allowed_services.is_empty() && self.denied_services.is_empty()
            && self.auto_allow_readonly;
        proof {
            if b {
                assert(self@.allowed_services =~= Seq::empty());
                assert(self@.denied_services =~= Seq::empty());
            }
        }
        b
    }
}

/// Whether a shell command that only reads is approved beforehand, where nothing
/// is said.
pub fn default_allow_read_only() -> (b: bool)
    ensures
        !b,
{
    false
}

/// What a manifest says of shell commands.
#[derive(Debug, Clone, PartialEq, Eq)]
pub struct ExecuteShellTool {
    /// The commands that may run.
    pub allowed_commands: StrSet,
    /// The commands that may not run.
    pub denied_commands: StrSet,
    /// Whether a command that is not allowed is denied.
    pub deny_by_default: bool,
    /// Whether commands that only read are approved beforehand.
    pub auto_allow_readonly: bool,
}

/// What the settings of the shell hold.
pub struct ExecuteShellToolView {
    pub allowed_commands: Seq<Seq<char>>,
    pub denied_commands: Seq<Seq<char>>,
    pub deny_by_default: bool,
    pub auto_allow_readonly: bool,
}

impl View for ExecuteShellTool {
    type V = ExecuteShellToolView;

    open spec fn view(&self) -> ExecuteShellToolView {
        ExecuteShellToolView {
            allowed_commands: self.allowed_commands@,
            denied_commands: self.denied_commands@,
            deny_by_default: self.deny_by_default,
            auto_allow_readonly: self.auto_allow_readonly,
        }
    }
}

/// The settings of the shell that a manifest leaves out.
pub open spec fn default_shell() -> ExecuteShellToolView {
    ExecuteShellToolView {
        allowed_commands: Seq::empty(),
        denied_commands: Seq::empty(),
        deny_by_default: false,
        auto_allow_readonly: false,
    }
}

impl Default for ExecuteShellTool {
    fn default() -> (t: ExecuteShellTool)
        ensures
            t@ == default_shell(),
    {
        ExecuteShellTool {
            allowed_commands: StrSet::new(),
            denied_commands: StrSet::new(),
            deny_by_default: false,
            auto_allow_readonly: default_allow_read_only(),
        }
    }
}

impl ExecuteShellTool {
    /// Whether these are the settings that a manifest leaves out.
    pub fn is_default(&self) -> (b: bool)
        ensures
            b == (self@ == default_shell()),
    {
        let b = self.allowed_commands.is_empty() && self.denied_commands.is_empty()
            && !self.deny_by_default && !self.auto_allow_readonly;
        proof {
            if b {
                assert(self@.allowed_commands =~= Seq::empty());
                assert(self@.denied_commands =~= Seq::empty());
            }
        }
        b
    }
}

/// What the settings of reading or of writing files hold.
pub struct PathToolView {
    pub allowed_paths: Seq<Seq<char>>,
    pub denied_paths: Seq<Seq<char>>,
}

/// The settings of an agent that says nothing of paths.
pub open spec fn default_paths() -> PathToolView {
    PathToolView { allowed_paths: Seq::empty(), denied_paths: Seq::empty() }
}

/// What a manifest says of reading files.
#[derive(Debug, Clone, PartialEq, Eq)]
pub struct ReadTool {
    /// The paths that may be read.
    pub allowed_paths: StrSet,
    /// The paths that may not be read.
    pub denied_paths: StrSet,
}

impl View for ReadTool {
    type V = PathToolView;

    open spec fn view(&self) -> PathToolView {
        PathToolView { allowed_paths: self.allowed_paths@, denied_paths: self.denied_paths@ }
    }
}

impl Default for ReadTool {
    fn default() -> (t: ReadTool)
        ensures
            t@ == default_paths(),
    {
        ReadTool { allowed_paths: StrSet::new(), denied_paths: StrSet::new() }
    }
}

impl ReadTool {
    /// Whether these are the settings of an agent that says nothing of reading.
    pub fn is_default(&self) -> (b: bool)
        ensures
            b == (self@ == default_paths()),
    {
        let b = self.allowed_paths.is_empty() && self.denied_paths.is_empty();
        proof {
            if b {
                assert(self@.allowed_paths =~= Seq::empty());
                assert(self@.denied_paths =~= Seq::empty());
            }
        }
        b
    }
}

/// What a manifest says of writing files.
#[derive(Debug, Clone, PartialEq, Eq)]
pub struct WriteTool {
    /// The paths that may be written.
    pub allowed_paths: StrSet,
    /// The paths that may not be written.
    pub denied_paths: StrSet,
}

impl View for WriteTool {
    type V = PathToolView;

    open spec fn view(&self) -> PathToolView {
        PathToolView { allowed_paths: self.allowed_paths@, denied_paths: self.denied_paths@ }
    }
}

impl Default for WriteTool {
    fn default() -> (t: WriteTool)
        ensures
            t@ == default_paths(),
    {
        WriteTool { allowed_paths: StrSet::new(), denied_paths: StrSet::new() }
    }
}

impl WriteTool {
    /// Whether these are the settings of an agent that says nothing of writing.
    pub fn is_default(&self) -> (b: bool)
        ensures
            b == (self@ == default_paths()),
    {
        let b = self.allowed_paths.is_empty() && self.denied_paths.is_empty();
        proof {
            if b {
                assert(self@.allowed_paths =~= Seq::empty());
                assert(self@.denied_paths =~= Seq::empty());
            }
        }
        b
    }
}

impl Duplicate for AwsTool {
    fn duplicate(&self) -> (copy: AwsTool) {
        AwsTool {
            allowed_services: self.allowed_services.duplicate(),
            denied_services: self.denied_services.duplicate(),
            auto_allow_readonly: self.auto_allow_readonly,
        }
    }
}

impl Duplicate for ExecuteShellTool {
    fn duplicate(&self) -> (copy: ExecuteShellTool) {
        ExecuteShellTool {
            allowed_commands: self.allowed_commands.duplicate(),
            denied_commands: self.denied_commands.duplicate(),
            deny_by_default: self.deny_by_default,
            auto_allow_readonly: self.auto_allow_readonly,
        }
    }
}

impl Duplicate for ReadTool {
    fn duplicate(&self) -> (copy: ReadTool) {
        ReadTool {
            allowed_paths: self.allowed_paths.duplicate(),
            denied_paths: self.denied_paths.duplicate(),
        }
    }
}

impl Duplicate for WriteTool {
    fn duplicate(&self) -> (copy: WriteTool) {
        WriteTool {
            allowed_paths: self.allowed_paths.duplicate(),
            denied_paths: self.denied_paths.duplicate(),
        }
    }
}

} // verus!
