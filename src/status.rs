//! The run state of a supervised app.
use vstd::prelude::*;

verus! {

/// Where a supervised app stands.
#[derive(Debug, Clone, Copy, PartialEq, Eq, Structural)]
pub enum ProjectStatus {
    /// A child process is live.
    Running,
    /// No child process: never started, or it exited with success.
    Stopped,
    /// No child process: it exited without success, with its exit code if it had one.
    Crashed(Option<i32>),
}

impl ProjectStatus {
    pub fn is_running(&self) -> (r: bool)
        ensures
            r == (*self == ProjectStatus::Running),
    {
        match self {
            ProjectStatus::Running => true,
            _ => false,
        }
    }

    /// The lower-case name of the state, as the control surface reports it.
    pub fn state_name(&self) -> (r: &'static str)
        ensures
            r@ == status_name(*self),
    {
        proof {
            reveal_strlit("running");
            reveal_strlit("stopped");
            reveal_strlit("crashed");
        }
        match self {
            ProjectStatus::Running => "running",
            ProjectStatus::Stopped => "stopped",
            ProjectStatus::Crashed(_) => "crashed",
        }
    }
}

pub open spec fn status_name(s: ProjectStatus) -> Seq<char> {
    match s {
        ProjectStatus::Running => "running"@,
        ProjectStatus::Stopped => "stopped"@,
        ProjectStatus::Crashed(_) => "crashed"@,
    }
}

/// How a child process ended, as the operating system reported it.
#[derive(Debug, Clone, Copy, PartialEq, Eq, Structural)]
pub struct ExitInfo {
    pub success: bool,
    pub code: Option<i32>,
}

/// The state that an observed exit leaves an app in.
pub open spec fn status_after_exit(e: ExitInfo) -> ProjectStatus {
    if e.success {
        ProjectStatus::Stopped
    } else {
        ProjectStatus::Crashed(e.code)
    }
}

} // verus!
