//! Launch and termination plans.
//!
//! The supervisor never starts or kills a process itself: it produces exact
//! descriptions — which program, which arguments, which working directory
//! and environment, where output goes, and how a process tree is to be
//! brought down on each platform — and the unverified shell around the
//! library executes them.

use vstd::prelude::*;

verus! {

/// The fixed TCP port the backend binds on the loopback interface.
pub const AGENT_PORT: u16 = 8765;

/// Whether this is a development build (backend run from the source tree
/// with live reload) or a packaged build (backend run from bundled
/// resources).
#[derive(Clone, Copy, PartialEq, Eq, Structural, Debug)]
pub enum BuildMode {
    Development,
    Packaged,
}

/// The two process models the supervisor distinguishes: one with a native
/// tree-kill utility and per-window consoles, and the POSIX family with
/// process groups.
#[derive(Clone, Copy, PartialEq, Eq, Structural, Debug)]
pub enum Platform {
    Windows,
    Posix,
}

/// Where the backend's output goes. On Windows the child gets a new,
/// independently visible console window; elsewhere its output is appended
/// to a log file in the data directory (and the launcher falls back to
/// inherited streams if that file cannot be opened).
pub enum ConsolePolicy {
    NewConsole,
    LogFile { path: String },
}

/// Everything needed to start the backend: the resolved interpreter, its
/// argument list, the working directory, the environment variable carrying
/// the data directory, and the output policy. The unverified shell turns
/// this into an operating-system process.
pub struct LaunchSpec {
    pub program: String,
    pub args: Vec<String>,
    pub workdir: String,
    pub env_key: String,
    pub env_value: String,
    pub console: ConsolePolicy,
}

/// The argument views of a launch spec.
pub open spec fn arg_views(v: Seq<String>) -> Seq<Seq<char>> {
    v.map_values(|s: String| s@)
}

/// The backend entry point: run the web-server module's application object
/// on the loopback interface at the fixed port, with live reload only in
/// development builds.
pub open spec fn spec_agent_args(mode: BuildMode) -> Seq<Seq<char>> {
    let base = seq![
        "-m"@,
        "uvicorn"@,
        "main:app"@,
        "--host"@,
        "127.0.0.1"@,
        "--port"@,
        "8765"@,
    ];
    if mode is Development {
        base.push("--reload"@)
    } else {
        base
    }
}

/// Builds the complete launch description for the backend from the
/// resolved paths and the data directory.
pub fn build_launch_spec(
    mode: BuildMode,
    platform: Platform,
    agent_dir: &str,
    python: &str,
    data_dir: &str,
) -> (s: LaunchSpec)
    ensures
        s.program@ == python@,
        s.workdir@ == agent_dir@,
        s.env_key@ == "SANHUOAI_DATA_DIR"@,
        s.env_value@ == data_dir@,
        arg_views(s.args@) == spec_agent_args(mode),
        match platform {
            Platform::Windows => s.console is NewConsole,
            Platform::Posix => (match s.console {
                ConsolePolicy::LogFile { path } => path@ == data_dir@ + "/"@ + "agent.log"@,
                ConsolePolicy::NewConsole => false,
            }),
        },
{
    let mut args: Vec<String> = Vec::new();
    args.push(String::from_str("-m"));
    args.push(String::from_str("uvicorn"));
    args.push(String::from_str("main:app"));
    args.push(String::from_str("--host"));
    args.push(String::from_str("127.0.0.1"));
    args.push(String::from_str("--port"));
    args.push(String::from_str("8765"));
    match mode {
        BuildMode::Development => args.push(String::from_str("--reload")),
        BuildMode::Packaged => (),
    }
    proof {
        assert(arg_views(args@) =~= spec_agent_args(mode));
    }
    let console = match platform {
        Platform::Windows => ConsolePolicy::NewConsole,
        Platform::Posix => {
            let mut log_path = String::from_str(data_dir);
            log_path.append("/");
            log_path.append("agent.log");
            ConsolePolicy::LogFile { path: log_path }
        }
    };
    LaunchSpec {
        program: String::from_str(python),
        args,
        workdir: String::from_str(agent_dir),
        env_key: String::from_str("SANHUOAI_DATA_DIR"),
        env_value: String::from_str(data_dir),
        console,
    }
}

/// How a process tree is brought down. Windows has no group signal, so its
/// native tree-kill utility is invoked with force and recursive flags; on
/// POSIX systems a termination signal goes to the whole process group
/// through the negative-pid convention. In both cases the caller follows
/// up with a direct kill and a blocking wait on the handle itself, so a
/// failing tree kill still never leaves a zombie.
#[derive(Clone, Copy, PartialEq, Eq, Structural, Debug)]
pub enum KillPlan {
    TreeKillTool { pid: u32 },
    GroupSignal { target: i64 },
}

pub open spec fn spec_tree_kill_plan(platform: Platform, pid: u32) -> KillPlan {
    match platform {
        Platform::Windows => KillPlan::TreeKillTool { pid },
        Platform::Posix => KillPlan::GroupSignal { target: (-(pid as int)) as i64 },
    }
}

/// The platform's way of terminating the whole tree rooted in `pid`.
pub fn tree_kill_plan(platform: Platform, pid: u32) -> (p: KillPlan)
    ensures
        p == spec_tree_kill_plan(platform, pid),
{
    match platform {
        Platform::Windows => KillPlan::TreeKillTool { pid },
        Platform::Posix => {
            let target: i64 = 0i64 - (pid as i64);
            KillPlan::GroupSignal { target }
        }
    }
}

} // verus!
