use vstd::prelude::*;
use vstd::string::StringExecFns;

verus! {

/// Why the configuration cannot be resolved.
#[derive(Debug, Clone, PartialEq, Eq)]
pub enum ConfigError {
    /// The text of a tool setting is not JSON.
    InvalidToolSetting { name: String },
    /// The text of a tool setting is JSON, but not an object.
    ToolSettingNotObject { name: String },
    /// An agent has two tool settings of one name.
    DuplicateToolSetting { agent: String, name: String },
    /// An agent names a parent that no document declares.
    MissingParent { child: String, parent: String },
}

/// What an error holds.
pub enum ConfigErrorView {
    InvalidToolSetting { name: Seq<char> },
    ToolSettingNotObject { name: Seq<char> },
    DuplicateToolSetting { agent: Seq<char>, name: Seq<char> },
    MissingParent { child: Seq<char>, parent: Seq<char> },
}

impl View for ConfigError {
    type V = ConfigErrorView;

    open spec fn view(&self) -> ConfigErrorView {
        match self {
            ConfigError::InvalidToolSetting { name } => ConfigErrorView::InvalidToolSetting {
                name: name@,
            },
            ConfigError::ToolSettingNotObject { name } => ConfigErrorView::ToolSettingNotObject {
                name: name@,
            },
            ConfigError::DuplicateToolSetting {
                agent,
                name,
            } => ConfigErrorView::DuplicateToolSetting { agent: agent@, name: name@ },
            ConfigError::MissingParent { child, parent } => ConfigErrorView::MissingParent {
                child: child@,
                parent: parent@,
            },
        }
    }
}

impl ConfigErrorView {
    /// The sentence that reports the error.
    pub open spec fn message(self) -> Seq<char> {
        match self {
            ConfigErrorView::InvalidToolSetting { name } => "Failed to parse JSON for tool-setting '"@
                + name + "'"@,
            ConfigErrorView::ToolSettingNotObject { name } => "tool-setting '"@ + name
                + "' must be a JSON object"@,
            ConfigErrorView::DuplicateToolSetting { agent, name } => "["@ + agent
                + "] - Duplicate tool-setting '"@ + name
                + "' found. Each tool-setting name must be unique."@,
            ConfigErrorView::MissingParent { child, parent } => "["@ + child
                + "] - parent agent '"@ + parent + "' not found"@,
        }
    }
}

impl ConfigError {
    /// The sentence that reports the error.
    pub fn to_string(&self) -> (s: String)
        ensures
            s@ == self@.message(),
    {
        match self {
            ConfigError::InvalidToolSetting { name } => {
                String::from_str("Failed to parse JSON for tool-setting '").concat(
                    name.as_str(),
                ).concat("'")
            },
            ConfigError::ToolSettingNotObject { name } => {
                String::from_str("tool-setting '").concat(name.as_str()).concat(
                    "' must be a JSON object",
                )
            },
            ConfigError::DuplicateToolSetting { agent, name } => {
                String::from_str("[").concat(agent.as_str()).concat(
                    "] - Duplicate tool-setting '",
                ).concat(name.as_str()).concat("' found. Each tool-setting name must be unique.")
            },
            ConfigError::MissingParent { child, parent } => {
                String::from_str("[").concat(child.as_str()).concat("] - parent agent '").concat(
                    parent.as_str(),
                ).concat("' not found")
            },
        }
    }
}

} // verus!
