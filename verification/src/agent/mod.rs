pub mod custom_tool;
pub mod hook;
pub mod manifest;
pub mod mcp_config;
pub mod tools;
pub mod wrapper_types;

pub use custom_tool::{tool_default_timeout, CustomToolConfig, OAuthConfig, TransportType};
pub use hook::{Hook, HookTrigger};
pub use manifest::{Agent, ToolSettingValue};
pub use mcp_config::McpServerConfig;
pub use tools::{AwsTool, ExecuteShellTool, ReadTool, ToolTarget, WriteTool};
pub use wrapper_types::OriginalToolName;
