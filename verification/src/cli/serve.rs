//! How the workspace daemon's `serve` command starts and ends. It loads the
//! state file, mounts the workspace and binds its HTTP address, stopping with
//! a dedicated exit code at the first step that fails; then it waits for the first
//! of the FUSE session ending, the HTTP daemon ending or a shutdown signal,
//! then stops the daemon and unmounts what is still up. This is the decision
//! part of that loop; the caller does the waiting, stopping and unmounting.

use vstd::prelude::*;

use crate::cli::exit::{BIND, CONFIG, INTERNAL, MOUNT, SUCCESS};

verus! {

/// What `serve` does after each start-up step has been tried.
pub enum StartStep {
    /// Stop with this exit code.
    Exit(i32),
    /// Unmount the workspace first, then stop with this exit code.
    UnmountThenExit(i32),
    /// Everything is up: start the HTTP daemon and wait.
    Run,
}

/// `serve` starts by loading the state file, then mounting the workspace,
/// then binding the HTTP address; the first step that fails decides the
/// exit code, and a failed bind unmounts the workspace before exiting.
pub open spec fn start_step_of(state_loaded: bool, mounted: bool, bound: bool) -> StartStep {
    if !state_loaded {
        StartStep::Exit(CONFIG)
    } else if !mounted {
        StartStep::Exit(MOUNT)
    } else if !bound {
        StartStep::UnmountThenExit(BIND)
    } else {
        StartStep::Run
    }
}

/// Decides how `serve` goes on from its start-up steps (a later step counts
/// only when the earlier ones succeeded).
pub fn serve_start(state_loaded: bool, mounted: bool, bound: bool) -> (r: StartStep)
    ensures
        r == start_step_of(state_loaded, mounted, bound),
{
    if !state_loaded {
        StartStep::Exit(CONFIG)
    } else if !mounted {
        StartStep::Exit(MOUNT)
    } else if !bound {
        StartStep::UnmountThenExit(BIND)
    } else {
        StartStep::Run
    }
}

/// `serve` goes on to run only when the state file loaded, the workspace
/// mounted and the address bound. Otherwise it exits with the code of the
/// first step that failed, and only a failed bind leaves a mounted workspace
/// to unmount first.
pub proof fn law_serve_start(state_loaded: bool, mounted: bool, bound: bool)
    ensures
        start_step_of(state_loaded, mounted, bound) is Run <==> state_loaded && mounted && bound,
        start_step_of(state_loaded, mounted, bound) is UnmountThenExit <==> state_loaded && mounted && !bound,
        !state_loaded ==> start_step_of(state_loaded, mounted, bound) == StartStep::Exit(CONFIG),
        state_loaded && !mounted ==> start_step_of(state_loaded, mounted, bound) == StartStep::Exit(MOUNT),
{
}

/// How a task the serve loop waits on ended.
pub enum TaskEnd {
    Clean,
    Failed,
}

/// The first thing the serve loop saw.
pub enum ServeEvent {
    /// The FUSE session ended, cleanly or with an error.
    MountEnded(TaskEnd),
    /// The HTTP daemon task ended: cleanly, or with a server error or a
    /// failed join.
    DaemonEnded(TaskEnd),
    /// A shutdown signal arrived.
    Signal,
}

/// How waiting for the HTTP daemon after the shutdown request went.
pub enum ShutdownWait {
    Clean,
    /// The daemon ended with a server error or a failed join.
    Failed,
    /// The daemon did not end in time; it is aborted.
    TimedOut,
}

/// Where the serve loop stands after its first event: the exit code so far,
/// and which of the two tasks has already ended.
pub struct ServeProgress {
    pub code: i32,
    pub mount_finished: bool,
    pub daemon_finished: bool,
}

pub open spec fn failed_end(e: TaskEnd) -> bool {
    e is Failed
}

pub open spec fn event_failed(ev: ServeEvent) -> bool {
    match ev {
        ServeEvent::MountEnded(e) => failed_end(e),
        ServeEvent::DaemonEnded(e) => failed_end(e),
        ServeEvent::Signal => false,
    }
}

/// Where the serve loop stands after its first event.
pub open spec fn progress_of(ev: ServeEvent) -> ServeProgress {
    ServeProgress {
        code: if event_failed(ev) { INTERNAL } else { SUCCESS },
        mount_finished: ev is MountEnded,
        daemon_finished: ev is DaemonEnded,
    }
}

/// The exit code once the still-running daemon has been waited for.
pub open spec fn code_after_wait(code: i32, wait: ShutdownWait) -> i32 {
    if wait is Clean {
        code
    } else {
        INTERNAL
    }
}

/// The exit code of `serve`, given its first event and how waiting for the
/// daemon went when it was still running.
pub open spec fn serve_exit_code(ev: ServeEvent, wait: ShutdownWait) -> i32 {
    let p = progress_of(ev);
    if p.daemon_finished {
        p.code
    } else {
        code_after_wait(p.code, wait)
    }
}

/// Records the first event of the serve loop.
pub fn after_event(ev: ServeEvent) -> (p: ServeProgress)
    ensures
        p == progress_of(ev),
{
    match ev {
        ServeEvent::MountEnded(end) => ServeProgress {
            code: match end {
                TaskEnd::Clean => SUCCESS,
                TaskEnd::Failed => INTERNAL,
            },
            mount_finished: true,
            daemon_finished: false,
        },
        ServeEvent::DaemonEnded(end) => ServeProgress {
            code: match end {
                TaskEnd::Clean => SUCCESS,
                TaskEnd::Failed => INTERNAL,
            },
            mount_finished: false,
            daemon_finished: true,
        },
        ServeEvent::Signal => ServeProgress { code: SUCCESS, mount_finished: false, daemon_finished: false },
    }
}

/// The exit code once the daemon, still running at the first event, has
/// been waited for after the shutdown request; and whether it must be
/// aborted.
pub fn after_shutdown_wait(p: &ServeProgress, wait: ShutdownWait) -> (r: (i32, bool))
    ensures
        r.0 == code_after_wait(p.code, wait),
        r.1 == wait is TimedOut,
{
    match wait {
        ShutdownWait::Clean => (p.code, false),
        ShutdownWait::Failed => (INTERNAL, false),
        ShutdownWait::TimedOut => (INTERNAL, true),
    }
}

/// `serve` exits with 0 exactly when neither the FUSE session nor the HTTP
/// daemon failed, including while the daemon was being stopped, and with the
/// internal-error code otherwise.
pub proof fn law_serve_exit_code(ev: ServeEvent, wait: ShutdownWait)
    ensures
        serve_exit_code(ev, wait) == SUCCESS || serve_exit_code(ev, wait) == INTERNAL,
        serve_exit_code(ev, wait) == SUCCESS <==> !event_failed(ev) && (ev is DaemonEnded || wait is Clean),
{
}

} // verus!
