use vstd::prelude::*;
use crate::agent::custom_tool::{CustomToolConfig, CustomToolConfigView};
use crate::text::Duplicate;
use crate::text_map::StrMap;

verus! {

/// The servers of an agent, by name.
#[derive(Debug, Clone, PartialEq, Eq)]
pub struct McpServerConfig {
    pub mcp_servers: StrMap<CustomToolConfig>,
}

impl View for McpServerConfig {
    type V = Seq<(Seq<char>, CustomToolConfigView)>;

    open spec fn view(&self) -> Seq<(Seq<char>, CustomToolConfigView)> {
        self.mcp_servers@
    }
}

impl Default for McpServerConfig {
    fn default() -> (c: McpServerConfig)
        ensures
            c@.len() == 0,
    {
        McpServerConfig { mcp_servers: StrMap::new() }
    }
}

impl Duplicate for McpServerConfig {
    fn duplicate(&self) -> (copy: McpServerConfig) {
        McpServerConfig { mcp_servers: self.mcp_servers.duplicate() }
    }
}

} // verus!
