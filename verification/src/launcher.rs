//! Starting the worker: the command lines that the launcher runs.
//!
//! Running a command is the caller's; this module says which program is run
//! with which arguments.
use vstd::prelude::*;
use vstd::string::*;
use crate::paths::interpreter_path;
use crate::paths::joined;
use crate::paths::script_path;
use crate::paths::uv_path;

verus! {

/// A program and the arguments it is started with, in order.
pub struct CommandLine {
    pub program: String,
    pub args: Vec<String>,
}

impl CommandLine {
    /// The arguments as texts.
    pub open spec fn arg_texts(&self) -> Seq<Seq<char>> {
        Seq::new(self.args@.len(), |i: int| self.args@[i]@)
    }
}

/// What is run to bring the worker up.
pub struct LaunchPlan {
    /// The upgrade of the helper package, where the network can be reached.
    pub upgrade: Option<CommandLine>,
    /// The worker itself.
    pub worker: CommandLine,
}

/// The worker's arguments: its script, the flag that keeps it from opening a
/// browser of its own and, on a first run only, the first-run flag.
pub open spec fn worker_arguments(script: Seq<char>, first_run: bool) -> Seq<Seq<char>> {
    if first_run {
        seq![script, "--no-browser"@, "--first-run"@]
    } else {
        seq![script, "--no-browser"@]
    }
}

/// The arguments of the upgrade of the helper package for `python`.
pub open spec fn upgrade_arguments(python: Seq<char>) -> Seq<Seq<char>> {
    seq![
        "pip"@,
        "install"@,
        "--upgrade"@,
        "--pre"@,
        "--python"@,
        python,
        "yt-dlp[default]"@,
        "--break-system-packages"@,
    ]
}

/// The arguments of the probe that tells whether the network can be reached.
pub open spec fn probe_arguments() -> Seq<Seq<char>> {
    seq!["-c"@, "1"@, "-W"@, "2"@, "1.1.1.1"@]
}

/// `cmd` starts the worker of `app_support`.
pub open spec fn is_worker_command(cmd: CommandLine, app_support: Seq<char>, first_run: bool) -> bool {
    &&& cmd.program@ == joined(
        app_support,
        "zanshin/python_interpreter/cpython-3.11.13-macos-aarch64-none/bin/python"@,
    )
    &&& cmd.arg_texts() == worker_arguments(joined(app_support, "zanshin/src/app.py"@), first_run)
}

/// `cmd` upgrades the helper package of `app_support`.
pub open spec fn is_upgrade_command(cmd: CommandLine, app_support: Seq<char>) -> bool {
    &&& cmd.program@ == joined(app_support, "zanshin/third_party/uv/uv"@)
    &&& cmd.arg_texts() == upgrade_arguments(
        joined(
            app_support,
            "zanshin/python_interpreter/cpython-3.11.13-macos-aarch64-none/bin/python"@,
        ),
    )
}

/// The command that starts the worker.
pub fn launch_python(app_support: &str, first_run: bool) -> (cmd: CommandLine)
    ensures
        is_worker_command(cmd, app_support@, first_run),
{
    let program = interpreter_path(app_support);
    let mut args: Vec<String> = Vec::new();
    args.push(script_path(app_support));
    args.push(String::from_str("--no-browser"));
    if first_run {
        args.push(String::from_str("--first-run"));
    }
    let cmd = CommandLine { program, args };
    assert(cmd.arg_texts() =~= worker_arguments(
        joined(app_support@, "zanshin/src/app.py"@),
        first_run,
    ));
    cmd
}

/// The command that upgrades the one helper package that is pure
/// interpreted code, for the worker's interpreter.
pub fn run_uv_pip_install(app_support: &str) -> (cmd: CommandLine)
    ensures
        is_upgrade_command(cmd, app_support@),
{
    let program = uv_path(app_support);
    let python = interpreter_path(app_support);
    let mut args: Vec<String> = Vec::new();
    args.push(String::from_str("pip"));
    args.push(String::from_str("install"));
    args.push(String::from_str("--upgrade"));
    args.push(String::from_str("--pre"));
    args.push(String::from_str("--python"));
    args.push(python);
    args.push(String::from_str("yt-dlp[default]"));
    args.push(String::from_str("--break-system-packages"));
    let cmd = CommandLine { program, args };
    assert(cmd.arg_texts() =~= upgrade_arguments(
        joined(
            app_support@,
            "zanshin/python_interpreter/cpython-3.11.13-macos-aarch64-none/bin/python"@,
        ),
    ));
    cmd
}

/// The probe: one echo request with a wait of two seconds.
pub fn probe_command() -> (cmd: CommandLine)
    ensures
        cmd.program@ == "ping"@,
        cmd.arg_texts() == probe_arguments(),
{
    let mut args: Vec<String> = Vec::new();
    args.push(String::from_str("-c"));
    args.push(String::from_str("1"));
    args.push(String::from_str("-W"));
    args.push(String::from_str("2"));
    args.push(String::from_str("1.1.1.1"));
    let cmd = CommandLine { program: String::from_str("ping"), args };
    assert(cmd.arg_texts() =~= probe_arguments());
    cmd
}

/// Whether the network can be reached, from how the probe ended: `None`
/// where it could not be run, else whether it succeeded.
pub fn check_internet_connection(probe: Option<bool>) -> (online: bool)
    ensures
        online == (probe == Some(true)),
{
    match probe {
        Some(succeeded) => succeeded,
        None => false,
    }
}

/// The command that opens `url` in the system's browser.
pub fn open_browser(url: &str) -> (cmd: CommandLine)
    ensures
        cmd.program@ == "open"@,
        cmd.arg_texts() == seq![url@],
{
    let mut args: Vec<String> = Vec::new();
    args.push(String::from_str(url));
    let cmd = CommandLine { program: String::from_str("open"), args };
    assert(cmd.arg_texts() =~= seq![url@]);
    cmd
}

/// What is run to bring the worker up. The upgrade is part of it only when
/// the network can be reached; the worker is started either way, and how the
/// upgrade ends has no part in it.
pub fn plan_launch(app_support: &str, first_run: bool, online: bool) -> (plan: LaunchPlan)
    ensures
        plan.upgrade.is_some() == online,
        plan.upgrade matches Some(cmd) ==> is_upgrade_command(cmd, app_support@),
        is_worker_command(plan.worker, app_support@, first_run),
{
    let upgrade = if online {
        Some(run_uv_pip_install(app_support))
    } else {
        None
    };
    LaunchPlan { upgrade, worker: launch_python(app_support, first_run) }
}

/// The first-run flag is among the worker's arguments exactly on a first
/// run, and the two fixed arguments come first either way.
pub proof fn first_run_flag_only_on_first_run(script: Seq<char>, first_run: bool)
    ensures
        worker_arguments(script, first_run).len() == (if first_run {
            3int
        } else {
            2int
        }),
        worker_arguments(script, first_run)[0] == script,
        worker_arguments(script, first_run)[1] == "--no-browser"@,
        first_run ==> worker_arguments(script, first_run)[2] == "--first-run"@,
        worker_arguments(script, first_run).contains("--first-run"@) == (first_run || script
            == "--first-run"@),
{
    reveal_strlit("--first-run");
    reveal_strlit("--no-browser");
    let args = worker_arguments(script, first_run);
    if first_run {
        assert(args[2] == "--first-run"@);
    } else {
        assert("--no-browser"@.len() != "--first-run"@.len());
    }
    if script == "--first-run"@ {
        assert(args[0] == "--first-run"@);
    }
}

} // verus!
