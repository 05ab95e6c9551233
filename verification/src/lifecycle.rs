//! What the launcher does when the application is brought to the front and
//! when it exits.
use vstd::prelude::*;
use vstd::string::*;
use crate::launcher::open_browser;
use crate::launcher::CommandLine;
use crate::paths::interpreter_path;
use crate::paths::joined;
use crate::paths::update_script_path;
use crate::state::AppState;
use crate::state::ZanshinStatus;

verus! {

/// One part of the work done at exit.
#[derive(Debug, Clone, Copy, PartialEq, Eq, Structural)]
pub enum ExitStep {
    /// Stop the worker.
    StopWorker,
    /// Compact the media database.
    VacuumDatabase,
    /// Run the update script, where there is one.
    RunUpdate,
}

/// How the attempt to compact the media database went.
pub enum VacuumAttempt {
    /// There is no database: nothing was tried.
    Missing,
    /// The database was compacted.
    Vacuumed,
    /// The database could not be opened, for the reason given.
    OpenFailed(String),
    /// The database was opened and could not be compacted, for the reason given.
    VacuumFailed(String),
}

/// Whether the worker serves its web UI in this status.
pub open spec fn serves_ui(status: Option<ZanshinStatus>) -> bool {
    status == Some(ZanshinStatus::RUNNING) || status == Some(ZanshinStatus::PROCESSOR_WARMED_UP)
}

/// The address of the worker's web UI.
pub fn web_ui_url() -> (url: &'static str)
    ensures
        url@ == "http://localhost:1776"@,
{
    "http://localhost:1776"
}

/// What to run when the application is brought to the front: the browser on
/// the web UI, where the worker serves it, else nothing. The state is only
/// read.
pub fn on_reopen<P>(state: &AppState<P>) -> (cmd: Option<CommandLine>)
    ensures
        cmd.is_some() == serves_ui(state.status),
        cmd matches Some(c) ==> c.program@ == "open"@ && c.arg_texts() == seq![
            "http://localhost:1776"@,
        ],
{
    match state.status {
        Some(ZanshinStatus::RUNNING) | Some(ZanshinStatus::PROCESSOR_WARMED_UP) => Some(
            open_browser(web_ui_url()),
        ),
        _ => None,
    }
}

/// The step after `done` in the order of exit.
pub open spec fn exit_step_after(done: Option<ExitStep>) -> Option<ExitStep> {
    match done {
        None => Some(ExitStep::StopWorker),
        Some(ExitStep::StopWorker) => Some(ExitStep::VacuumDatabase),
        Some(ExitStep::VacuumDatabase) => Some(ExitStep::RunUpdate),
        Some(ExitStep::RunUpdate) => None,
    }
}

/// The next step of the exit, after the step `done`, or the first one. The
/// order is fixed: the worker is stopped, then the database compacted, then
/// the update run; no step's failure keeps the next from running.
pub fn next_exit_step(done: Option<ExitStep>) -> (next: Option<ExitStep>)
    ensures
        next == exit_step_after(done),
{
    match done {
        None => Some(ExitStep::StopWorker),
        Some(ExitStep::StopWorker) => Some(ExitStep::VacuumDatabase),
        Some(ExitStep::VacuumDatabase) => Some(ExitStep::RunUpdate),
        Some(ExitStep::RunUpdate) => None,
    }
}

/// What the attempt to compact the database amounts to.
pub open spec fn vacuum_result(attempt: VacuumAttempt) -> Result<(), Seq<char>> {
    match attempt {
        VacuumAttempt::Missing => Ok(()),
        VacuumAttempt::Vacuumed => Ok(()),
        VacuumAttempt::OpenFailed(reason) => Err("Failed to open media.db: "@ + reason@),
        VacuumAttempt::VacuumFailed(reason) => Err("Failed to vacuum media.db: "@ + reason@),
    }
}

/// The outcome of compacting the media database, from how the attempt went.
/// A missing database is no error; a failure carries a message that says
/// which part failed and why.
pub fn vacuum_media_db(attempt: &VacuumAttempt) -> (outcome: Result<(), String>)
    ensures
        outcome.is_ok() == vacuum_result(*attempt).is_ok(),
        outcome matches Err(message) ==> vacuum_result(*attempt) == Err::<(), Seq<char>>(
            message@,
        ),
{
    match attempt {
        VacuumAttempt::Missing => Ok(()),
        VacuumAttempt::Vacuumed => Ok(()),
        VacuumAttempt::OpenFailed(reason) => {
            let message = String::from_str("Failed to open media.db: ").concat(reason.as_str());
            Err(message)
        },
        VacuumAttempt::VacuumFailed(reason) => {
            let message = String::from_str("Failed to vacuum media.db: ").concat(reason.as_str());
            Err(message)
        },
    }
}

/// The command that runs the update script with the worker's interpreter,
/// where the update directory is a directory and the script in it a file;
/// else nothing is run.
pub fn update_command(app_support: &str, update_dir_found: bool, script_found: bool) -> (cmd:
    Option<CommandLine>)
    ensures
        cmd.is_some() == (update_dir_found && script_found),
        cmd matches Some(c) ==> {
            &&& c.program@ == joined(
                app_support@,
                "zanshin/python_interpreter/cpython-3.11.13-macos-aarch64-none/bin/python"@,
            )
            &&& c.arg_texts() == seq![joined(joined(app_support@, "update"@), "update.py"@)]
        },
{
    if update_dir_found && script_found {
        let mut args: Vec<String> = Vec::new();
        args.push(update_script_path(app_support));
        let c = CommandLine { program: interpreter_path(app_support), args };
        assert(c.arg_texts() =~= seq![joined(joined(app_support@, "update"@), "update.py"@)]);
        Some(c)
    } else {
        None
    }
}

} // verus!
