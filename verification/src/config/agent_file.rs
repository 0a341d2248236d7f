use vstd::prelude::*;
use crate::config::agent::{
    aliases_of, allowed_of, description_of, hooks_of_doc, model_of, prompt_of, resources_of,
    servers_of, tools_of, AllowedTools, Description, Inherits, KdlAgent, KdlAgentDoc,
    KdlAgentView, Model, Prompt, Resource, ToolAliasKdl, Tools,
};
use crate::config::hook::HookDoc;
use crate::config::mcp::CustomToolConfigKdl;
use crate::config::native::{native_of, NativeToolsDoc};
use crate::config::tool_setting::{setting_views, ToolSetting};

verus! {

/// What a file of its own says of one agent. The agent's name is that of the file;
/// a file can neither mark its agent as a template nor give it parents.
#[derive(Debug, Clone, PartialEq, Eq, Default)]
pub struct KdlAgentFileDoc {
    pub description: Option<Description>,
    pub inherits: Inherits,
    pub prompt: Option<Prompt>,
    pub resources: Vec<Resource>,
    pub include_mcp_json: Option<bool>,
    pub tools: Option<Tools>,
    pub allowed_tools: Option<AllowedTools>,
    pub model: Option<Model>,
    pub hook: Option<HookDoc>,
    pub mcp: Vec<CustomToolConfigKdl>,
    pub alias: Vec<ToolAliasKdl>,
    pub native_tool: NativeToolsDoc,
    pub tool_setting: Vec<ToolSetting>,
}

/// What a file of its own says of one agent, under its other name.
pub type KdlAgentFileSource = KdlAgentFileDoc;

impl KdlAgentDoc {
    /// The declaration of the agent `name` that its own file gives: what the file
    /// says, without parents and without the mark of a template.
    pub fn from_file_source(name: &str, file_source: KdlAgentFileDoc) -> (doc: KdlAgentDoc)
        ensures
            doc.name@ == name@,
            doc.template is None,
            doc.inherits.parents@.len() == 0,
            doc.description == file_source.description,
            doc.prompt == file_source.prompt,
            doc.resources == file_source.resources,
            doc.include_mcp_json == file_source.include_mcp_json,
            doc.tools == file_source.tools,
            doc.allowed_tools == file_source.allowed_tools,
            doc.model == file_source.model,
            doc.hook == file_source.hook,
            doc.mcp == file_source.mcp,
            doc.alias == file_source.alias,
            doc.native_tool == file_source.native_tool,
            doc.tool_setting == file_source.tool_setting,
    {
        KdlAgentDoc {
            name: name.to_owned(),
            description: file_source.description,
            template: None,
            inherits: Inherits { parents: Vec::new() },
            prompt: file_source.prompt,
            resources: file_source.resources,
            include_mcp_json: file_source.include_mcp_json,
            tools: file_source.tools,
            allowed_tools: file_source.allowed_tools,
            model: file_source.model,
            hook: file_source.hook,
            mcp: file_source.mcp,
            alias: file_source.alias,
            native_tool: file_source.native_tool,
            tool_setting: file_source.tool_setting,
        }
    }
}

impl KdlAgentFileDoc {
    /// The draft of the agent `name` that the file gives.
    pub open spec fn named(self, name: Seq<char>) -> KdlAgentView {
        KdlAgentView {
            name,
            template: None,
            description: description_of(self.description),
            inherits: Seq::empty(),
            prompt: prompt_of(self.prompt),
            resources: resources_of(self.resources@),
            include_mcp_json: self.include_mcp_json,
            tools: tools_of(self.tools),
            allowed_tools: allowed_of(self.allowed_tools),
            model: model_of(self.model),
            hook: hooks_of_doc(self.hook),
            mcp: servers_of(self.mcp@),
            alias: aliases_of(self.alias@),
            native_tool: native_of(self.native_tool),
            tool_setting: setting_views(self.tool_setting@),
        }
    }
}

impl KdlAgent {
    /// The draft of the agent `name` that its own file gives.
    pub fn from_file_source(name: &str, file_source: KdlAgentFileDoc) -> (draft: KdlAgent)
        ensures
            draft@ == file_source.named(name@),
    {
        let doc = KdlAgentDoc::from_file_source(name, file_source);
        let draft = KdlAgent::from_doc(&doc);
        proof {
            assert(crate::text::texts(doc.inherits.parents@) =~= Seq::empty());
        }
        draft
    }
}

} // verus!
