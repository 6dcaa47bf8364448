//! The daemon's shared state: its configuration, its log store and the
//! registry of supervised apps, with the operations that the control surface,
//! the poll loop and the shutdown signals perform on them.
use vstd::prelude::*;
use crate::config::{Config, ProjectConfig};
use crate::logs::{LogFlush, LogStore, LogType, Log, lines_text};
use crate::project::{Project, polled};
use crate::status::{ExitInfo, ProjectStatus};
use crate::text::{join3, push_str, str_eq};

verus! {

/// The daemon.
pub struct App {
    pub config: Config,
    /// Wall-clock second at which the daemon started.
    pub uptime: i64,
    pub logs: LogStore,
    /// The registry of apps.
    pub projects: Vec<Project>,
    /// Wall-clock second of the last shutdown signal; zero when none came.
    pub last_exit_try: u64,
}

/// `i` is the first app named `name`.
pub open spec fn is_first_named(ps: Seq<Project>, name: Seq<char>, i: int) -> bool {
    &&& 0 <= i < ps.len()
    &&& ps[i].name@ == name
    &&& forall|j: int| 0 <= j < i ==> (#[trigger] ps[j]).name@ != name
}

/// The apps not named `name`, in order.
pub open spec fn without_named(ps: Seq<Project>, name: Seq<char>) -> Seq<Project>
    decreases ps.len(),
{
    if ps.len() == 0 {
        Seq::empty()
    } else if ps.last().name@ != name {
        without_named(ps.drop_last(), name).push(ps.last())
    } else {
        without_named(ps.drop_last(), name)
    }
}

pub open spec fn has_named(ps: Seq<Project>, name: Seq<char>) -> bool {
    exists|i: int| 0 <= i < ps.len() && (#[trigger] ps[i]).name@ == name
}

pub open spec fn some_running(ps: Seq<Project>) -> bool {
    exists|i: int| 0 <= i < ps.len() && (#[trigger] ps[i]).status == ProjectStatus::Running
}

/// The process ids of the live children, in registry order.
pub open spec fn live_pids(ps: Seq<Project>) -> Seq<u32>
    decreases ps.len(),
{
    if ps.len() == 0 {
        Seq::empty()
    } else {
        match ps.last().process.process {
            Some(pid) => live_pids(ps.drop_last()).push(pid),
            None => live_pids(ps.drop_last()),
        }
    }
}

/// The entry a stop request logs for app `name` with signal `sig`.
pub open spec fn stop_text(name: Seq<char>, sig: Seq<char>) -> Seq<char> {
    "Stopping `"@ + name + "` with `"@ + sig + "`"@
}

/// The entries a stop of every app with `sig` logs: one per live child, in
/// registry order.
pub open spec fn stop_texts(ps: Seq<Project>, sig: Seq<char>) -> Seq<Seq<char>>
    decreases ps.len(),
{
    if ps.len() == 0 {
        Seq::empty()
    } else {
        match ps.last().process.process {
            Some(_) => stop_texts(ps.drop_last(), sig).push(stop_text(ps.last().name@, sig)),
            None => stop_texts(ps.drop_last(), sig),
        }
    }
}

/// The name of the signal a shutdown delivers.
pub open spec fn shutdown_signal(force: bool) -> Seq<char> {
    if force { "SIGKILL"@ } else { "SIGINT"@ }
}

/// Seconds within which a second shutdown signal forces the children down.
pub const FORCE_WINDOW: u64 = 5;

/// Whether a shutdown signal at `now`, after one at `last`, forces.
pub open spec fn forces(last: u64, now: u64) -> bool {
    now - last <= FORCE_WINDOW
}

/// What a shutdown signal asks of the caller: the signal to deliver, and to
/// which children.
pub struct ShutdownOrder {
    /// Whether the children are killed rather than interrupted.
    pub force: bool,
    pub pids: Vec<u32>,
}

impl ShutdownOrder {
    /// The name of the signal to deliver.
    pub fn signal(&self) -> (r: &'static str)
        ensures
            r@ == (if self.force { "SIGKILL"@ } else { "SIGINT"@ }),
    {
        if self.force { "SIGKILL" } else { "SIGINT" }
    }
}

/// The result of reading an app's configuration from disk.
pub enum ConfigRead {
    /// The directory holds no `config.toml`.
    Missing,
    /// It could not be parsed; the parser's message.
    Invalid(String),
    Parsed(ProjectConfig),
}

/// Relies on chrono's `DateTime::from_timestamp` and `Local` time zone: the
/// offset from UTC, in seconds, in force at the timestamp (chrono's
/// `FixedOffset` holds it within a day); none where the timestamp is out of
/// chrono's range.
#[verifier::external_body]
fn local_offset(ts: i64) -> (r: Option<i32>)
    ensures
        r is Some ==> -86400 < r->0 < 86400,
{
    match chrono::DateTime::from_timestamp(ts, 0) {
        Some(d) => Some(
            chrono::Offset::fix(&chrono::TimeZone::offset_from_utc_datetime(&chrono::Local, &d.naive_utc()))
                .local_minus_utc(),
        ),
        None => None,
    }
}

impl App {
    pub open spec fn wf(&self) -> bool {
        &&& self.logs.wf()
        &&& forall|i: int| 0 <= i < self.projects@.len() ==> (#[trigger] self.projects@[i]).wf()
    }

    /// A daemon started at `now`, with no app and an empty log.
    pub fn new(config: Config, now: i64) -> (r: App)
        ensures
            r.wf(),
            r.config == config,
            r.uptime == now,
            r.logs.logs@.len() == 0,
            r.logs.log_save_index == 0,
            r.logs.last_log_save == 0,
            r.projects@.len() == 0,
            r.last_exit_try == 0,
    {
        App { config, uptime: now, logs: LogStore::new(), projects: Vec::new(), last_exit_try: 0 }
    }

    /// Appends a log entry made at `now`.
    pub fn log(&mut self, log_type: LogType, text: String, now: i64)
        requires
            old(self).wf(),
        ensures
            final(self).wf(),
            final(self).logs.logs@ == old(self).logs.logs@.push(Log { log_type, time: now, data: text }),
            final(self).logs.log_save_index == old(self).logs.log_save_index,
            final(self).logs.last_log_save == old(self).logs.last_log_save,
            final(self).projects == old(self).projects,
            final(self).config == old(self).config,
            final(self).last_exit_try == old(self).last_exit_try,
            final(self).uptime == old(self).uptime,
    {
        self.logs.log(log_type, text, now);
    }

    /// A flush of the log at `now`, with times in the local time zone: where
    /// one is due, the text to append to the day's log file and the count of
    /// entries it covers. Nothing changes until `logs_saved`.
    pub fn log_tick(&self, force: bool, now: u64) -> (r: Option<LogFlush>)
        ensures
            r is Some == crate::logs::tick_due(self.logs, force, now),
            r is Some ==> {
                &&& r->0.upto == self.logs.logs@.len()
                &&& exists|off: i32| #[trigger] lines_text(
                    self.logs.logs@.subrange(self.logs.log_save_index as int, self.logs.logs@.len() as int),
                    off as int,
                ) == r->0.text@
            },
    {
        let ts: i64 = if now <= i64::MAX as u64 { now as i64 } else { i64::MAX };
        // Out of the calendar's range, times are shown in UTC.
        let off = match local_offset(ts) {
            Some(o) => o,
            None => 0,
        };
        self.logs.log_tick(force, now, off)
    }

    /// Records that the entries below `upto` were written to disk at `now`.
    pub fn logs_saved(&mut self, upto: usize, now: u64)
        requires
            old(self).wf(),
            old(self).logs.log_save_index <= upto <= old(self).logs.logs@.len(),
        ensures
            final(self).wf(),
            final(self).config == old(self).config,
            final(self).uptime == old(self).uptime,
            final(self).projects == old(self).projects,
            final(self).last_exit_try == old(self).last_exit_try,
            final(self).logs.logs@ == old(self).logs.logs@,
            final(self).logs.log_save_index == upto,
            final(self).logs.last_log_save == now,
    {
        self.logs.mark_saved(upto, now);
    }

    /// The first app named `name`.
    pub fn find(&self, name: &str) -> (r: Option<usize>)
        ensures
            match r {
                Some(i) => is_first_named(self.projects@, name@, i as int),
                None => !has_named(self.projects@, name@),
            },
    {
        let mut i: usize = 0;
        while i < self.projects.len()
            invariant
                i <= self.projects@.len(),
                forall|j: int| 0 <= j < i ==> (#[trigger] self.projects@[j]).name@ != name@,
            decreases self.projects@.len() - i,
        {
            if str_eq(self.projects[i].name.as_str(), name) {
                return Some(i);
            }
            i = i + 1;
        }
        None
    }

    /// Whether the poll loop is to end the process: a shutdown signal came
    /// and no app is running any more.
    pub fn should_exit(&self) -> (r: bool)
        ensures
            r == (self.last_exit_try != 0 && !some_running(self.projects@)),
    {
        self.last_exit_try != 0 && Project::any_running(self)
    }

    /// Adds a supervisor to the registry.
    pub fn add_project(&mut self, p: Project)
        requires
            old(self).wf(),
            p.wf(),
        ensures
            final(self).wf(),
            final(self).config == old(self).config,
            final(self).uptime == old(self).uptime,
            final(self).projects@ == old(self).projects@.push(p),
            final(self).logs == old(self).logs,
            final(self).last_exit_try == old(self).last_exit_try,
    {
        self.projects.push(p);
    }

    /// Replaces every app named `name` by `fresh`, or removes them where no
    /// fresh supervisor could be made. The order of the others is kept.
    pub fn reload(&mut self, name: &str, fresh: Option<Project>)
        requires
            old(self).wf(),
            fresh matches Some(p) ==> p.wf(),
        ensures
            final(self).wf(),
            final(self).uptime == old(self).uptime,
            final(self).projects@ == without_named(old(self).projects@, name@)
                + match fresh { Some(p) => seq![p], None => Seq::empty() },
            final(self).logs == old(self).logs,
            final(self).last_exit_try == old(self).last_exit_try,
            final(self).config == old(self).config,
    {
        let ghost ps = self.projects@;
        let mut rest: Vec<Project> = Vec::new();
        core::mem::swap(&mut rest, &mut self.projects);
        // Take the registry apart from the back, then rebuild it from the
        // front with the apps of other names.
        let mut back: Vec<Project> = Vec::new();
        while rest.len() > 0
            invariant
                rest@ == ps.take(rest@.len() as int),
                back@.len() == ps.len() - rest@.len(),
                forall|j: int| 0 <= j < back@.len() ==> back@[j] == ps[ps.len() - 1 - j],
            decreases rest@.len(),
        {
            let p = rest.pop().unwrap();
            proof {
                assert(rest@ =~= ps.take(rest@.len() as int));
            }
            back.push(p);
        }
        let mut kept: Vec<Project> = Vec::new();
        while back.len() > 0
            invariant
                back@.len() <= ps.len(),
                forall|j: int| 0 <= j < back@.len() ==> back@[j] == ps[ps.len() - 1 - j],
                kept@ == without_named(ps.take(ps.len() - back@.len()), name@),
                forall|j: int| 0 <= j < ps.len() ==> (#[trigger] ps[j]).wf(),
                forall|j: int| 0 <= j < kept@.len() ==> (#[trigger] kept@[j]).wf(),
            decreases back@.len(),
        {
            let ghost i = ps.len() - back@.len();
            let p = back.pop().unwrap();
            assert(p == ps[i]);
            assert(ps.take(i + 1).drop_last() =~= ps.take(i));
            if !str_eq(p.name.as_str(), name) {
                kept.push(p);
            }
        }
        assert(ps.take(ps.len() as int) =~= ps);
        self.projects = kept;
        match fresh {
            Some(p) => self.projects.push(p),
            None => {},
        }
        assert(self.projects@ =~= without_named(ps, name@)
            + match fresh { Some(p) => seq![p], None => Seq::empty() });
    }
}

impl App {
    /// A poll of app `i`, with what its pipes gave and the exit observed.
    pub fn poll_project(&mut self, i: usize, out: Vec<u8>, err: Vec<u8>, exit: Option<ExitInfo>)
        requires
            old(self).wf(),
            i < old(self).projects@.len(),
        ensures
            final(self).wf(),
            final(self).config == old(self).config,
            final(self).uptime == old(self).uptime,
            final(self).projects@.len() == old(self).projects@.len(),
            polled(old(self).projects@[i as int], final(self).projects@[i as int], out@, err@, exit),
            forall|j: int| 0 <= j < old(self).projects@.len() && j != i ==>
                final(self).projects@[j] == old(self).projects@[j],
            final(self).logs == old(self).logs,
            final(self).last_exit_try == old(self).last_exit_try,
    {
        self.projects[i].poll(out, err, exit);
    }

    /// A start request on app `i`: logs it, and says whether to spawn.
    pub fn start_project(&mut self, i: usize, binary_exists: bool, now: i64) -> (spawn: bool)
        requires
            old(self).wf(),
            i < old(self).projects@.len(),
        ensures
            final(self).wf(),
            final(self).config == old(self).config,
            final(self).uptime == old(self).uptime,
            final(self).projects == old(self).projects,
            spawn == crate::project::start_allowed(old(self).projects@[i as int], binary_exists),
            final(self).logs.logs@ == old(self).logs.logs@.push(Log {
                log_type: crate::project::start_kind(old(self).projects@[i as int], binary_exists),
                time: now,
                data: final(self).logs.logs@.last().data,
            }),
            final(self).logs.log_save_index == old(self).logs.log_save_index,
            final(self).logs.last_log_save == old(self).logs.last_log_save,
            final(self).logs.logs@.last().data@ == crate::project::start_message(
                old(self).projects@[i as int],
                binary_exists,
            ),
            final(self).last_exit_try == old(self).last_exit_try,
    {
        self.projects[i].start(&mut self.logs, binary_exists, now)
    }

    /// Logs that the child of app `i` could not be spawned, for `reason`;
    /// the app stays as it was.
    pub fn spawn_failed(&mut self, i: usize, reason: &str, now: i64)
        requires
            old(self).wf(),
            i < old(self).projects@.len(),
        ensures
            final(self).wf(),
            final(self).config == old(self).config,
            final(self).uptime == old(self).uptime,
            final(self).last_exit_try == old(self).last_exit_try,
            final(self).projects == old(self).projects,
            final(self).logs.logs@ == old(self).logs.logs@.push(Log {
                log_type: LogType::Error,
                time: now,
                data: final(self).logs.logs@.last().data,
            }),
            final(self).logs.logs@.last().data@ == "Error starting `"@ + old(self).projects@[i as int].name@
                + "`: "@ + reason@,
            final(self).logs.log_save_index == old(self).logs.log_save_index,
            final(self).logs.last_log_save == old(self).logs.last_log_save,
    {
        let mut m = join3("Error starting `", self.projects[i].name.as_str(), "`: ");
        push_str(&mut m, reason);
        self.log(LogType::Error, m, now);
    }

    /// Records that app `i`'s child, with process id `pid`, was spawned at `now`.
    pub fn project_started(&mut self, i: usize, pid: u32, now: u64)
        requires
            old(self).wf(),
            i < old(self).projects@.len(),
            old(self).projects@[i as int].status != ProjectStatus::Running,
            pid > 0,
        ensures
            final(self).wf(),
            final(self).config == old(self).config,
            final(self).uptime == old(self).uptime,
            final(self).projects@.len() == old(self).projects@.len(),
            crate::project::spawned(old(self).projects@[i as int], final(self).projects@[i as int], pid, now),
            forall|j: int| 0 <= j < old(self).projects@.len() && j != i ==>
                final(self).projects@[j] == old(self).projects@[j],
            final(self).logs == old(self).logs,
            final(self).last_exit_try == old(self).last_exit_try,
    {
        self.projects[i].started(pid, now);
    }

    /// A stop request on app `i` with signal `sig`: the process id to
    /// signal, where a child is live.
    pub fn stop_project(&mut self, i: usize, sig: &str, now: i64) -> (r: Option<u32>)
        requires
            old(self).wf(),
            i < old(self).projects@.len(),
        ensures
            final(self).wf(),
            final(self).config == old(self).config,
            final(self).uptime == old(self).uptime,
            final(self).projects == old(self).projects,
            r == old(self).projects@[i as int].process.process,
            r is None ==> final(self).logs == old(self).logs,
            r is Some ==> final(self).logs.logs@.len() == old(self).logs.logs@.len() + 1,
            r is Some ==> final(self).logs.logs@.last().data@ == stop_text(old(self).projects@[i as int].name@, sig@),
            r is Some ==> final(self).logs.logs@.last().log_type == LogType::Info,
            final(self).logs.logs@.take(old(self).logs.logs@.len() as int) == old(self).logs.logs@,
            final(self).last_exit_try == old(self).last_exit_try,
    {
        let r = self.projects[i].stop(&mut self.logs, sig, now);
        assert(self.logs.logs@.take(old(self).logs.logs@.len() as int) =~= old(self).logs.logs@);
        r
    }

    /// A shutdown signal at `now`: records it, logs the shutdown, and orders
    /// every live child interrupted, or killed where the previous signal came
    /// at most five seconds before.
    pub fn on_exit_signal(&mut self, now: u64) -> (r: ShutdownOrder)
        requires
            old(self).wf(),
        ensures
            final(self).wf(),
            final(self).config == old(self).config,
            final(self).uptime == old(self).uptime,
            final(self).last_exit_try == now,
            final(self).projects == old(self).projects,
            r.force == forces(old(self).last_exit_try, now),
            r.pids@ == live_pids(old(self).projects@),
            final(self).logs.logs@.len() == old(self).logs.logs@.len() + 1
                + stop_texts(old(self).projects@, shutdown_signal(r.force)).len(),
            forall|k: int| 0 <= k < stop_texts(old(self).projects@, shutdown_signal(r.force)).len() ==> {
                &&& (#[trigger] final(self).logs.logs@[old(self).logs.logs@.len() + 1 + k]).data@
                    == stop_texts(old(self).projects@, shutdown_signal(r.force))[k]
                &&& final(self).logs.logs@[old(self).logs.logs@.len() + 1 + k].log_type == LogType::Info
            },
            final(self).logs.logs@.take(old(self).logs.logs@.len() as int) == old(self).logs.logs@,
            final(self).logs.logs@[old(self).logs.logs@.len() as int].log_type == LogType::Info,
            final(self).logs.logs@[old(self).logs.logs@.len() as int].data@ == (if r.force {
                "Shutting down (FORCE)"@
            } else {
                "Shutting down"@
            }),
    {
        let last = self.last_exit_try;
        self.last_exit_try = now;
        let force = now.saturating_sub(last) <= FORCE_WINDOW;
        let t: i64 = if now <= i64::MAX as u64 { now as i64 } else { i64::MAX };
        if force {
            self.log(LogType::Info, String::from_str("Shutting down (FORCE)"), t);
        } else {
            self.log(LogType::Info, String::from_str("Shutting down"), t);
        }
        let sig = if force { "SIGKILL" } else { "SIGINT" };
        proof {
            reveal_strlit("SIGKILL");
            reveal_strlit("SIGINT");
        }
        let ghost n0 = self.logs.logs@.len();
        assert(self.logs.logs@.take(n0 - 1) =~= old(self).logs.logs@);
        let ghost first = self.logs.logs@[n0 - 1];
        let mut pids: Vec<u32> = Vec::new();
        let mut i: usize = 0;
        while i < self.projects.len()
            invariant
                self.wf(),
                self.projects == old(self).projects,
                self.last_exit_try == now,
                i <= self.projects@.len(),
                pids@ == live_pids(self.projects@.take(i as int)),
                self.logs.logs@.len() == n0 + stop_texts(self.projects@.take(i as int), shutdown_signal(force)).len(),
                sig@ == shutdown_signal(force),
                forall|k: int| 0 <= k < stop_texts(self.projects@.take(i as int), shutdown_signal(force)).len() ==> {
                    &&& (#[trigger] self.logs.logs@[n0 + k]).data@
                        == stop_texts(self.projects@.take(i as int), shutdown_signal(force))[k]
                    &&& self.logs.logs@[n0 + k].log_type == LogType::Info
                },
                self.logs.logs@[n0 - 1] == first,
                n0 == old(self).logs.logs@.len() + 1,
                self.config == old(self).config,
                self.uptime == old(self).uptime,
                self.logs.logs@.take(n0 - 1) == old(self).logs.logs@,
            decreases self.projects@.len() - i,
        {
            let ghost before = self.logs.logs@;
            match self.stop_project(i, sig, t) {
                Some(pid) => pids.push(pid),
                None => {},
            }
            assert(before[n0 - 1] == self.logs.logs@.take(before.len() as int)[n0 - 1]);
            assert(self.logs.logs@.take(n0 - 1) =~= self.logs.logs@.take(before.len() as int).take(n0 - 1));
            assert(self.projects@.take(i + 1).drop_last() =~= self.projects@.take(i as int));
            proof {
                let ps = self.projects@;
                let tx = stop_texts(ps.take(i as int), shutdown_signal(force));
                let ty = stop_texts(ps.take(i + 1), shutdown_signal(force));
                assert(ps.take(i + 1).last() == ps[i as int]);
                assert forall|k: int| 0 <= k < ty.len() implies {
                    &&& (#[trigger] self.logs.logs@[n0 + k]).data@ == ty[k]
                    &&& self.logs.logs@[n0 + k].log_type == LogType::Info
                } by {
                    if k < tx.len() {
                        assert(self.logs.logs@[n0 + k] == before[n0 + k]);
                    }
                }
            }
            i = i + 1;
        }
        assert(self.projects@.take(self.projects@.len() as int) =~= self.projects@);
        ShutdownOrder { force, pids }
    }
}

impl Project {
    /// Whether the registry is clear of running apps: true exactly when no
    /// app has a running child, which is what the poll loop's exit test asks.
    pub fn any_running(app: &App) -> (r: bool)
        ensures
            r == !some_running(app.projects@),
    {
        let mut i: usize = 0;
        while i < app.projects.len()
            invariant
                i <= app.projects@.len(),
                forall|j: int| 0 <= j < i ==> (#[trigger] app.projects@[j]).status != ProjectStatus::Running,
            decreases app.projects@.len() - i,
        {
            if app.projects[i].status.is_running() {
                return false;
            }
            i = i + 1;
        }
        true
    }

    /// Loading the app in directory `dir_name` at `path`, whose configuration
    /// was read as `read`: logs the attempt and any failure, and gives a
    /// fresh stopped supervisor where the configuration parsed.
    pub fn load_project(app: &mut App, dir_name: &str, path: String, read: ConfigRead, now: i64) -> (r: Option<Project>)
        requires
            old(app).wf(),
        ensures
            final(app).wf(),
            final(app).projects == old(app).projects,
            final(app).logs.log_save_index == old(app).logs.log_save_index,
            final(app).logs.last_log_save == old(app).logs.last_log_save,
            final(app).logs.logs@.len() == old(app).logs.logs@.len() + (if read is Parsed { 1int } else { 2 }),
            final(app).logs.logs@.take(old(app).logs.logs@.len() as int) == old(app).logs.logs@,
            final(app).logs.logs@[old(app).logs.logs@.len() as int].data@ == "Loading app `"@ + dir_name@ + "`"@,
            final(app).logs.logs@[old(app).logs.logs@.len() as int].log_type == LogType::Info,
            final(app).config == old(app).config,
            final(app).uptime == old(app).uptime,
            final(app).last_exit_try == old(app).last_exit_try,
            match read {
                ConfigRead::Parsed(c) => r is Some && r->0.config == c && r->0.project_path == path
                    && r->0.status == ProjectStatus::Stopped && r->0.wf() && r->0.name@ == c.name@
                    && r->0.process.stdout@.len() == 0 && r->0.process.stderr@.len() == 0
                    && r->0.process.process is None && r->0.process.uptime == 0,
                ConfigRead::Missing => r is None && final(app).logs.logs@.last().log_type == LogType::Error
                    && final(app).logs.logs@.last().data@ == "App config file not found! (config.toml)"@,
                ConfigRead::Invalid(e) => r is None && final(app).logs.logs@.last().log_type == LogType::Error
                    && final(app).logs.logs@.last().data@ == "Invalid app config: "@ + e@,
            },
    {
        app.log(LogType::Info, join3("Loading app `", dir_name, "`"), now);
        proof {
            reveal_strlit("`");
        }
        match read {
            ConfigRead::Missing => {
                app.log(LogType::Error, String::from_str("App config file not found! (config.toml)"), now);
                None
            },
            ConfigRead::Invalid(e) => {
                let mut msg = String::from_str("Invalid app config: ");
                push_str(&mut msg, e.as_str());
                app.log(LogType::Error, msg, now);
                None
            },
            ConfigRead::Parsed(c) => Some(Project::from_raw(c, path)),
        }
    }

}

/// No app named `name` is left once they are all taken out.
pub proof fn lemma_without_named_has_none(ps: Seq<Project>, name: Seq<char>)
    ensures
        !has_named(without_named(ps, name), name),
    decreases ps.len(),
{
    if ps.len() > 0 {
        lemma_without_named_has_none(ps.drop_last(), name);
        let r = without_named(ps.drop_last(), name);
        if ps.last().name@ != name {
            assert forall|i: int| 0 <= i < r.push(ps.last()).len() implies
                (#[trigger] r.push(ps.last())[i]).name@ != name by {
                if i < r.len() {
                    assert(r.push(ps.last())[i] == r[i]);
                }
            }
        }
    }
}

/// Reloading a stopped app whose configuration is unchanged on disk leaves
/// the registry with exactly one app of that name, stopped as before and with
/// the same configuration; the other apps keep their order and states.
pub proof fn lemma_reload_keeps_status(ps: Seq<Project>, name: Seq<char>, i: int, fresh: Project)
    requires
        is_first_named(ps, name, i),
        ps[i].wf(),
        ps[i].status == ProjectStatus::Stopped,
        fresh.wf(),
        fresh.config == ps[i].config,
        fresh.status == ProjectStatus::Stopped,
    ensures
        ({
            let r = without_named(ps, name) + seq![fresh];
            &&& is_first_named(r, name, r.len() - 1)
            &&& forall|j: int| 0 <= j < r.len() - 1 ==> (#[trigger] r[j]).name@ != name
            &&& r[r.len() - 1].status == ps[i].status
            &&& r[r.len() - 1].config == ps[i].config
            &&& r.drop_last() == without_named(ps, name)
        }),
{
    lemma_without_named_has_none(ps, name);
    let w = without_named(ps, name);
    let r = w + seq![fresh];
    assert(fresh.name@ == name);
    assert forall|j: int| 0 <= j < r.len() - 1 implies (#[trigger] r[j]).name@ != name by {
        assert(r[j] == w[j]);
    }
    assert(r.drop_last() =~= w);
}

/// A second shutdown signal within five seconds of the first forces: the
/// first interrupts, the second kills.
pub proof fn lemma_second_signal_forces(last: u64, t1: u64, t2: u64)
    requires
        t1 - last > FORCE_WINDOW,
        t1 <= t2 <= t1 + FORCE_WINDOW,
    ensures
        !forces(last, t1),
        forces(t1, t2),
{
}

} // verus!
