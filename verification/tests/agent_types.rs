use kiro_generator::agent::{
    tool_default_timeout, AwsTool, ExecuteShellTool, McpServerConfig, OriginalToolName, ReadTool,
    ToolTarget, TransportType, WriteTool,
};

#[test]
fn transport_type_default() {
    assert_eq!(tool_default_timeout(), 120 * 1000);
    assert_eq!(TransportType::default(), TransportType::Stdio);
}

#[test]
fn mcp_server_config_default() {
    let config = McpServerConfig::default();
    assert!(config.mcp_servers.is_empty());
}

#[test]
fn tool_target_display() {
    assert_eq!(ToolTarget::Aws.to_string(), "aws");
    assert_eq!(ToolTarget::Shell.to_string(), "shell");
}

#[test]
fn tool_target_as_ref() {
    assert_eq!(ToolTarget::Read.as_ref(), "read");
    assert_eq!(ToolTarget::Write.as_ref(), "write");
}

#[test]
fn aws_tool_default() {
    let tool = AwsTool::default();
    assert!(tool.auto_allow_readonly);
    assert!(tool.allowed_services.is_empty());
}

#[test]
fn execute_shell_tool_default() {
    let tool = ExecuteShellTool::default();
    assert!(!tool.deny_by_default);
    assert!(!tool.auto_allow_readonly);
}

#[test]
fn original_tool_name_deref() {
    let name = OriginalToolName("test".into());
    assert_eq!(&*name, "test");
}

#[test]
fn original_tool_name_borrow() {
    let name = OriginalToolName("test".into());
    let borrowed: &str = name.borrow();
    assert_eq!(borrowed, "test");
}

#[test]
fn defaults_are_recognised() {
    assert!(AwsTool::default().is_default());
    assert!(ExecuteShellTool::default().is_default());
    assert!(ReadTool::default().is_default());
    assert!(WriteTool::default().is_default());
    let mut aws = AwsTool::default();
    aws.auto_allow_readonly = false;
    assert!(!aws.is_default());
    let mut shell = ExecuteShellTool::default();
    shell.auto_allow_readonly = true;
    assert!(!shell.is_default());
}

#[test]
fn every_target_has_its_own_name() {
    let all = [ToolTarget::Aws, ToolTarget::Shell, ToolTarget::Read, ToolTarget::Write];
    for a in all.iter() {
        for b in all.iter() {
            assert_eq!(a.as_ref() == b.as_ref(), a == b);
        }
    }
}
