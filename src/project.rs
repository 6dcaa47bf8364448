//! The supervisor of one app: its state machine, its live child (by process
//! id) and the output captured from it. The operating-system work (spawning,
//! signalling, reading the pipes, reaping) is done by the caller, who hands
//! the results to these methods.
use vstd::prelude::*;
use crate::config::ProjectConfig;
use crate::logs::{LogStore, LogType, Log};
use crate::status::{ExitInfo, ProjectStatus, status_after_exit};
use crate::text::join3;

verus! {

/// The process side of a supervised app.
pub struct Process {
    /// Wall-clock second at which the current run began; zero when not running.
    pub uptime: u64,
    /// The process id of the live child, if there is one.
    pub process: Option<u32>,
    /// Everything read so far from the child's standard output.
    pub stdout: Vec<u8>,
    /// Everything read so far from the child's standard error.
    pub stderr: Vec<u8>,
}

impl Process {
    pub fn new() -> (r: Process)
        ensures
            r.uptime == 0,
            r.process is None,
            r.stdout@.len() == 0,
            r.stderr@.len() == 0,
    {
        Process { uptime: 0, process: None, stdout: Vec::new(), stderr: Vec::new() }
    }
}

/// One supervised app.
pub struct Project {
    /// The app's name, unique among the apps.
    pub name: String,
    pub config: ProjectConfig,
    /// The app's directory.
    pub project_path: String,
    pub status: ProjectStatus,
    pub process: Process,
}

/// What a start request does, given whether the executable exists.
pub open spec fn start_allowed(p: Project, binary_exists: bool) -> bool {
    p.status != ProjectStatus::Running && binary_exists
}

/// The same app, with the same settings.
pub open spec fn same_app(a: Project, b: Project) -> bool {
    &&& a.name == b.name
    &&& a.config == b.config
    &&& a.project_path == b.project_path
}

/// The start time recorded for a run begun at `now`: the clock's reading,
/// or one second where it reads zero, so that a running app never has a zero
/// start time.
pub open spec fn start_stamp(now: u64) -> u64 {
    if now == 0 { 1 } else { now }
}

/// `b` is `a` once a child with process id `pid` has been spawned at `now`.
pub open spec fn spawned(a: Project, b: Project, pid: u32, now: u64) -> bool {
    &&& same_app(a, b)
    &&& b.status == ProjectStatus::Running
    &&& b.process.process == Some(pid)
    &&& b.process.uptime == start_stamp(now)
    &&& b.process.stdout == a.process.stdout
    &&& b.process.stderr == a.process.stderr
}

/// `b` is `a` after one poll that read `out` and `err` from the pipes and
/// observed `exit` (none while the child still runs).
pub open spec fn polled(a: Project, b: Project, out: Seq<u8>, err: Seq<u8>, exit: Option<ExitInfo>) -> bool {
    &&& same_app(a, b)
    &&& if a.process.process is None {
        &&& b.status == a.status
        &&& b.process == a.process
    } else {
        &&& b.process.stdout@ == a.process.stdout@ + out
        &&& b.process.stderr@ == a.process.stderr@ + err
        &&& match exit {
            None => {
                &&& b.status == a.status
                &&& b.process.process == a.process.process
                &&& b.process.uptime == a.process.uptime
            },
            Some(e) => {
                &&& b.status == status_after_exit(e)
                &&& b.process.process is None
                &&& b.process.uptime == 0
            },
        }
    }
}

pub open spec fn start_message(p: Project, binary_exists: bool) -> Seq<char> {
    if p.status == ProjectStatus::Running {
        "Process already started `"@ + p.name@ + "`"@
    } else if !binary_exists {
        "No runable binary `"@ + p.name@ + "`"@
    } else {
        "Starting `"@ + p.name@ + "`"@
    }
}

pub open spec fn start_kind(p: Project, binary_exists: bool) -> LogType {
    if start_allowed(p, binary_exists) { LogType::Info } else { LogType::Error }
}

impl Project {
    /// A running child is exactly a live process handle, a zero start time
    /// is exactly a state other than running, a live child has a positive
    /// process id, and the app's name is the one its configuration gives.
    pub open spec fn wf(&self) -> bool {
        &&& self.name@ == self.config.name@
        &&& self.process.process is Some ==> self.process.process->0 > 0
        &&& (self.status == ProjectStatus::Running) == (self.process.process is Some)
        &&& (self.process.uptime == 0) == (self.status != ProjectStatus::Running)
    }

    /// The executable that a start runs: the configured command, in the
    /// app's directory.
    pub fn binary_path(&self) -> (r: String)
        ensures
            r@ == self.project_path@ + "/"@ + self.config.run.command@,
    {
        join3(self.project_path.as_str(), "/", self.config.run.command.as_str())
    }

    /// The directory a started child runs in: the app's `repo`.
    pub fn work_dir(&self) -> (r: String)
        ensures
            r@ == self.project_path@ + "/repo"@,
    {
        let mut r = String::from_str(self.project_path.as_str());
        crate::text::push_str(&mut r, "/repo");
        r
    }

    /// A fresh, stopped supervisor for an app read from `path`.
    pub fn from_raw(raw: ProjectConfig, path: String) -> (r: Project)
        ensures
            r.wf(),
            r.name@ == raw.name@,
            r.config == raw,
            r.project_path == path,
            r.status == ProjectStatus::Stopped,
            r.process.stdout@.len() == 0,
            r.process.stderr@.len() == 0,
    {
        let name = raw.name.clone();
        Project { name, config: raw, project_path: path, status: ProjectStatus::Stopped, process: Process::new() }
    }

    /// A start request: logs what it does, and says whether the caller is to
    /// spawn the child (not while one runs, nor without an executable).
    pub fn start(&self, logs: &mut LogStore, binary_exists: bool, now: i64) -> (spawn: bool)
        requires
            old(logs).wf(),
        ensures
            final(logs).wf(),
            spawn == start_allowed(*self, binary_exists),
            final(logs).logs@ == old(logs).logs@.push(Log {
                log_type: start_kind(*self, binary_exists),
                time: now,
                data: final(logs).logs@.last().data,
            }),
            final(logs).logs@.last().data@ == start_message(*self, binary_exists),
            final(logs).log_save_index == old(logs).log_save_index,
            final(logs).last_log_save == old(logs).last_log_save,
    {
        proof {
            reveal_strlit("`");
        }
        if self.status.is_running() {
            logs.log(LogType::Error, join3("Process already started `", self.name.as_str(), "`"), now);
            return false;
        }
        if !binary_exists {
            logs.log(LogType::Error, join3("No runable binary `", self.name.as_str(), "`"), now);
            return false;
        }
        logs.log(LogType::Info, join3("Starting `", self.name.as_str(), "`"), now);
        true
    }

    /// Records that a child with process id `pid` was spawned at `now`.
    pub fn started(&mut self, pid: u32, now: u64)
        requires
            old(self).wf(),
            old(self).status != ProjectStatus::Running,
            pid > 0,
        ensures
            final(self).wf(),
            spawned(*old(self), *final(self), pid, now),
    {
        self.process.process = Some(pid);
        self.process.uptime = if now == 0 { 1 } else { now };
        self.status = ProjectStatus::Running;
    }

    /// A stop request with signal `sig`: where a child is live, logs it and
    /// returns the process id to signal; otherwise does nothing. The state
    /// changes only once a poll observes the exit.
    pub fn stop(&self, logs: &mut LogStore, sig: &str, now: i64) -> (r: Option<u32>)
        requires
            old(logs).wf(),
        ensures
            final(logs).wf(),
            r == self.process.process,
            r is None ==> *final(logs) == *old(logs),
            r is Some ==> {
                &&& final(logs).logs@.len() == old(logs).logs@.len() + 1
                &&& final(logs).logs@.drop_last() == old(logs).logs@
                &&& final(logs).logs@.last().log_type == LogType::Info
                &&& final(logs).logs@.last().time == now
                &&& final(logs).logs@.last().data@ == "Stopping `"@ + self.name@ + "` with `"@ + sig@ + "`"@
                &&& final(logs).log_save_index == old(logs).log_save_index
                &&& final(logs).last_log_save == old(logs).last_log_save
            },
    {
        match self.process.process {
            None => None,
            Some(pid) => {
                let mut msg = join3("Stopping `", self.name.as_str(), "` with `");
                crate::text::push_str(&mut msg, sig);
                crate::text::push_str(&mut msg, "`");
                logs.log(LogType::Info, msg, now);
                proof {
                    assert(final(logs).logs@.drop_last() =~= old(logs).logs@);
                }
                Some(pid)
            },
        }
    }

    /// One poll: appends what was read from the child's pipes (empty where a
    /// read failed) and, where the child has exited, moves to the state its
    /// exit gives, without a child and with a zero start time.
    pub fn poll(&mut self, out: Vec<u8>, err: Vec<u8>, exit: Option<ExitInfo>)
        requires
            old(self).wf(),
        ensures
            final(self).wf(),
            polled(*old(self), *final(self), out@, err@, exit),
    {
        if self.process.process.is_none() {
            return;
        }
        let mut out = out;
        let mut err = err;
        self.process.stdout.append(&mut out);
        self.process.stderr.append(&mut err);
        match exit {
            None => {},
            Some(e) => {
                self.process.uptime = 0;
                self.process.process = None;
                if e.success {
                    self.status = ProjectStatus::Stopped;
                } else {
                    self.status = ProjectStatus::Crashed(e.code);
                }
            },
        }
    }
}

/// Once a start request has spawned a child, a second start request finds
/// the app running and spawns nothing: an app never has two children.
pub proof fn lemma_single_child(a: Project, b: Project, pid: u32, now: u64, first: bool, second: bool)
    requires
        a.wf(),
        start_allowed(a, first),
        spawned(a, b, pid, now),
        pid > 0,
    ensures
        b.wf(),
        !start_allowed(b, second),
        b.process.process == Some(pid),
{
}

/// Starting a stopped app, then polling until the exit of its child is seen
/// (polls that see no exit change no state), gives back the state it had:
/// stopped, without a child and with a zero start time, where the child
/// exited with success; crashed with the exit code otherwise.
pub proof fn lemma_start_stop_round_trip(
    a: Project,
    b: Project,
    c: Project,
    pid: u32,
    now: u64,
    out: Seq<u8>,
    err: Seq<u8>,
    e: ExitInfo,
)
    requires
        a.wf(),
        a.status == ProjectStatus::Stopped,
        spawned(a, b, pid, now),
        polled(b, c, out, err, Some(e)),
    ensures
        same_app(a, c),
        e.success ==> {
            &&& c.status == a.status
            &&& c.process.process == a.process.process
            &&& c.process.uptime == a.process.uptime
        },
        !e.success ==> c.status == ProjectStatus::Crashed(e.code) && c.process.process is None,
{
}

/// A poll that sees no exit leaves the state of the app as it was.
pub proof fn lemma_poll_without_exit_keeps_state(a: Project, b: Project, out: Seq<u8>, err: Seq<u8>)
    requires
        polled(a, b, out, err, None),
    ensures
        b.status == a.status,
        b.process.process == a.process.process,
        b.process.uptime == a.process.uptime,
{
}

} // verus!
