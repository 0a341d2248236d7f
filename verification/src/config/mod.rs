pub mod agent;
pub mod agent_file;
pub mod generator_config;
pub mod hook;
pub mod mcp;
pub mod merge;
pub mod native;
pub mod tool_setting;

pub use agent::{KdlAgent, KdlAgentDoc};
pub use agent_file::{KdlAgentFileDoc, KdlAgentFileSource};
pub use generator_config::{GeneratorConfig, GeneratorConfigDoc};
pub use hook::{HookDoc, HookPart};
pub use native::{NativeTools, NativeToolsDoc};
