use sanhuoai::launch::{
    build_launch_spec, tree_kill_plan, BuildMode, ConsolePolicy, KillPlan, Platform, AGENT_PORT,
};

#[test]
fn port_is_fixed() {
    assert_eq!(AGENT_PORT, 8765);
}

#[test]
fn development_launch_adds_reload_and_logs_on_posix() {
    let s = build_launch_spec(
        BuildMode::Development,
        Platform::Posix,
        "/work/agent",
        "python3",
        "/data",
    );
    assert_eq!(s.program, "python3");
    assert_eq!(s.workdir, "/work/agent");
    assert_eq!(s.env_key, "SANHUOAI_DATA_DIR");
    assert_eq!(s.env_value, "/data");
    assert_eq!(
        s.args,
        vec![
            String::from("-m"),
            String::from("uvicorn"),
            String::from("main:app"),
            String::from("--host"),
            String::from("127.0.0.1"),
            String::from("--port"),
            String::from("8765"),
            String::from("--reload"),
        ]
    );
    match s.console {
        ConsolePolicy::LogFile { path } => assert_eq!(path, "/data/agent.log"),
        ConsolePolicy::NewConsole => panic!("posix launch must log to a file"),
    }
}

#[test]
fn packaged_launch_omits_reload_and_opens_console_on_windows() {
    let s = build_launch_spec(
        BuildMode::Packaged,
        Platform::Windows,
        "C:/app/agent",
        "C:/app/python_embed/python.exe",
        "C:/data",
    );
    assert_eq!(s.args.len(), 7);
    assert!(!s.args.contains(&String::from("--reload")));
    assert!(matches!(s.console, ConsolePolicy::NewConsole));
}

#[test]
fn tree_kill_uses_the_platform_mechanism() {
    assert_eq!(
        tree_kill_plan(Platform::Windows, 1234),
        KillPlan::TreeKillTool { pid: 1234 }
    );
    assert_eq!(
        tree_kill_plan(Platform::Posix, 1234),
        KillPlan::GroupSignal { target: -1234 }
    );
    // the whole 32-bit pid range is representable as a group target
    assert_eq!(
        tree_kill_plan(Platform::Posix, u32::MAX),
        KillPlan::GroupSignal {
            target: -(u32::MAX as i64)
        }
    );
}
