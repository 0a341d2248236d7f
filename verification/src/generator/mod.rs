pub mod config_location;
pub mod discover;
pub mod generate;
pub mod merge;
pub mod report;

pub use config_location::ConfigLocation;
pub use discover::{discover, DocumentSet, ResolvedAgents};
pub use generate::{AgentResult, Generator};
