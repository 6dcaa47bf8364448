//! The decisions of the control surface: who may do what, what an app action
//! asks of the caller, and the data each read-only endpoint returns. Parsing
//! request bodies and writing JSON responses is left to the server around it.
use vstd::prelude::*;
use crate::auth::{ValidateType, satisfies};
use crate::daemon::{App, is_first_named, has_named, without_named};
use crate::project::Project;
use crate::logs::{Log, LogPage, LogType, window_logs, page_is_end, visible};
use crate::status::ProjectStatus;
use crate::text::{push_str};

verus! {

/// Why a request was refused.
#[derive(Debug)]
pub enum ApiError {
    InvalidToken,
    InvalidApp,
    InvalidSignal,
    AlreadyStopped,
    AlreadyRunning,
    StillRunning,
    NoBranch,
    RemoteNotFound,
    InvalidReference,
    MergeConflicts,
    InvalidBase64,
    InvalidGzip,
    /// The request body is not what the endpoint takes; the parser's words.
    InvalidPayload(String),
    /// A failure of the machine (disk, process, repository); its words.
    Io(String),
}

impl ApiError {
    /// The HTTP status of the response: 500 for a failure of the machine,
    /// 400 for anything the client caused.
    pub fn status(&self) -> (r: u16)
        ensures
            r == (if self is Io { 500u16 } else { 400u16 }),
    {
        match self {
            ApiError::Io(_) => 500,
            _ => 400,
        }
    }

    /// The text of the response's `error` field.
    pub fn message(&self) -> (r: String)
        ensures
            r@ == error_message(*self),
    {
        match self {
            ApiError::InvalidToken => String::from_str("Invalid Token"),
            ApiError::InvalidApp => String::from_str("Invalid App"),
            ApiError::InvalidSignal => String::from_str("invalid signal"),
            ApiError::AlreadyStopped => String::from_str("App Already Stopped"),
            ApiError::AlreadyRunning => String::from_str("App Already Running"),
            ApiError::StillRunning => String::from_str("App is still running"),
            ApiError::NoBranch => String::from_str("No Branch defined"),
            ApiError::RemoteNotFound => String::from_str("Remote not found"),
            ApiError::InvalidReference => String::from_str("Invalid reference"),
            ApiError::MergeConflicts => String::from_str("Merge conflicts o.o"),
            ApiError::InvalidBase64 => String::from_str("`data` is not valid base64"),
            ApiError::InvalidGzip => String::from_str("Error decompressing"),
            ApiError::InvalidPayload(m) => m.clone(),
            ApiError::Io(m) => m.clone(),
        }
    }
}

pub open spec fn error_message(e: ApiError) -> Seq<char> {
    match e {
        ApiError::InvalidToken => "Invalid Token"@,
        ApiError::InvalidApp => "Invalid App"@,
        ApiError::InvalidSignal => "invalid signal"@,
        ApiError::AlreadyStopped => "App Already Stopped"@,
        ApiError::AlreadyRunning => "App Already Running"@,
        ApiError::StillRunning => "App is still running"@,
        ApiError::NoBranch => "No Branch defined"@,
        ApiError::RemoteNotFound => "Remote not found"@,
        ApiError::InvalidReference => "Invalid reference"@,
        ApiError::MergeConflicts => "Merge conflicts o.o"@,
        ApiError::InvalidBase64 => "`data` is not valid base64"@,
        ApiError::InvalidGzip => "Error decompressing"@,
        ApiError::InvalidPayload(m) => m@,
        ApiError::Io(m) => m@,
    }
}

/// The actions that `/app/action` performs.
#[derive(Debug, Clone, Copy, PartialEq, Eq, Structural)]
pub enum ActionType {
    Stop,
    Start,
    Update,
    Reload,
}

pub open spec fn action_name(a: ActionType) -> Seq<char> {
    match a {
        ActionType::Stop => "stop"@,
        ActionType::Start => "start"@,
        ActionType::Update => "update"@,
        ActionType::Reload => "reload"@,
    }
}

impl ActionType {
    pub fn name(&self) -> (r: &'static str)
        ensures
            r@ == action_name(*self),
    {
        proof {
            reveal_strlit("stop");
            reveal_strlit("start");
            reveal_strlit("update");
            reveal_strlit("reload");
        }
        match self {
            ActionType::Stop => "stop",
            ActionType::Start => "start",
            ActionType::Update => "update",
            ActionType::Reload => "reload",
        }
    }
}

/// The body of an `/app/action` request.
pub struct ActionRequest {
    pub token: String,
    pub name: String,
    pub action: ActionType,
    /// Stop: the signal's name; `SIGINT` where none is given.
    pub signal: Option<String>,
    /// Update: the new executable, as base64 of its gzip compression.
    pub data: Option<String>,
    /// Update: the remote to fetch from; `origin` where none is given.
    pub remote: Option<String>,
    /// Update: the branch to fetch.
    pub branch: Option<String>,
    /// Update: a reference to merge instead of the fetched head.
    pub checkout: Option<String>,
    /// Update: whether the checkout is forced.
    pub force: Option<bool>,
}

/// What an update fetches and merges from the app's repository.
#[derive(Debug)]
pub struct RepoUpdate {
    pub url: String,
    pub branch: String,
    pub remote: String,
    pub checkout: Option<String>,
    pub force: bool,
}

/// What an accepted action asks the caller to do, on app `index`.
#[derive(Debug)]
pub enum ActionPlan {
    /// Deliver the named signal to the app's child, if it has one.
    Stop { index: usize, signal: String },
    Start { index: usize },
    /// Update from the repository, then from the uploaded executable; each
    /// where given. Neither: nothing to do.
    Update { index: usize, repo: Option<RepoUpdate>, data: Option<String> },
    /// Read the app's configuration again and replace its supervisor.
    Reload { index: usize },
}

impl ActionPlan {
    pub open spec fn index(&self) -> usize {
        match self {
            ActionPlan::Stop { index, .. } => *index,
            ActionPlan::Start { index } => *index,
            ActionPlan::Update { index, .. } => *index,
            ActionPlan::Reload { index } => *index,
        }
    }
}

/// The names that nix accepts for a signal.
pub uninterp spec fn is_signal_name(s: Seq<char>) -> bool;

/// The signals the control surface's users name most: nix accepts them.
pub open spec fn well_known_signal(s: Seq<char>) -> bool {
    s == "SIGINT"@ || s == "SIGTERM"@ || s == "SIGKILL"@
}

/// Relies on nix's `Signal::from_str`: it accepts the signal names that it
/// lists (`SIGINT`, `SIGTERM`, `SIGKILL` among them) and refuses the rest.
#[verifier::external_body]
fn signal_known(name: &str) -> (r: bool)
    ensures
        r == is_signal_name(name@),
        well_known_signal(name@) ==> r,
{
    <nix::sys::signal::Signal as core::str::FromStr>::from_str(name).is_ok()
}

impl App {
    /// Decides an `/app/action` request: refuses it with the error that
    /// applies, or says what the caller is to do. Nothing is changed.
    pub fn plan_action(&self, req: &ActionRequest) -> (r: Result<ActionPlan, ApiError>)
        ensures
            !satisfies(ValidateType::Scoped(req.name), self.config.api.token@, self.projects@, req.token@)
                ==> (r matches Err(ApiError::InvalidToken)),
            satisfies(ValidateType::Scoped(req.name), self.config.api.token@, self.projects@, req.token@)
                ==> {
                &&& !has_named(self.projects@, req.name@) ==> (r matches Err(ApiError::InvalidApp))
                &&& has_named(self.projects@, req.name@) ==> exists|i: int| #[trigger]
                    is_first_named(self.projects@, req.name@, i) && action_planned(self, req, i, r)
            },
    {
        if !ValidateType::Scoped(req.name.clone()).validate(self, req.token.as_str()) {
            return Err(ApiError::InvalidToken);
        }
        let i = match self.find(req.name.as_str()) {
            Some(i) => i,
            None => return Err(ApiError::InvalidApp),
        };
        let status = self.projects[i].status;
        let r = match req.action {
            ActionType::Stop => {
                if status == ProjectStatus::Stopped {
                    Err(ApiError::AlreadyStopped)
                } else {
                    match &req.signal {
                        Some(s) => if signal_known(s.as_str()) {
                            Ok(ActionPlan::Stop { index: i, signal: s.clone() })
                        } else {
                            Err(ApiError::InvalidSignal)
                        },
                        None => Ok(ActionPlan::Stop { index: i, signal: String::from_str("SIGINT") }),
                    }
                }
            },
            ActionType::Start => {
                if status.is_running() {
                    Err(ApiError::AlreadyRunning)
                } else {
                    Ok(ActionPlan::Start { index: i })
                }
            },
            ActionType::Update => {
                if status.is_running() {
                    Err(ApiError::StillRunning)
                } else {
                    match &self.projects[i].config.git.repo {
                        None => Ok(ActionPlan::Update { index: i, repo: None, data: clone_opt(&req.data) }),
                        Some(url) => match &req.branch {
                            None => Err(ApiError::NoBranch),
                            Some(branch) => {
                                let remote = match &req.remote {
                                    Some(x) => x.clone(),
                                    None => String::from_str("origin"),
                                };
                                let force = match req.force {
                                    Some(f) => f,
                                    None => false,
                                };
                                Ok(ActionPlan::Update {
                                    index: i,
                                    repo: Some(RepoUpdate {
                                        url: url.clone(),
                                        branch: branch.clone(),
                                        remote,
                                        checkout: clone_opt(&req.checkout),
                                        force,
                                    }),
                                    data: clone_opt(&req.data),
                                })
                            },
                        },
                    }
                }
            },
            ActionType::Reload => {
                if status.is_running() {
                    Err(ApiError::StillRunning)
                } else {
                    Ok(ActionPlan::Reload { index: i })
                }
            },
        };
        r
    }

    /// Logs an action that succeeded, requested from `ip`.
    pub fn log_action(&mut self, ip: &str, action: ActionType, name: &str, now: i64)
        requires
            old(self).wf(),
        ensures
            final(self).wf(),
            final(self).config == old(self).config,
            final(self).uptime == old(self).uptime,
            final(self).logs.logs@ == old(self).logs.logs@.push(Log {
                log_type: LogType::Info,
                time: now,
                data: final(self).logs.logs@.last().data,
            }),
            final(self).logs.logs@.last().data@ == "[WEB] ["@ + ip@ + "] Triggered "@ + action_name(action)
                + " on "@ + name@,
            final(self).logs.log_save_index == old(self).logs.log_save_index,
            final(self).logs.last_log_save == old(self).logs.last_log_save,
            final(self).projects == old(self).projects,
            final(self).last_exit_try == old(self).last_exit_try,
    {
        let mut m = String::from_str("[WEB] [");
        push_str(&mut m, ip);
        push_str(&mut m, "] Triggered ");
        push_str(&mut m, action.name());
        push_str(&mut m, " on ");
        push_str(&mut m, name);
        self.log(LogType::Info, m, now);
    }

    /// Logs a request with an invalid token, from `ip` on `path`, and gives
    /// the error to answer it with.
    pub fn token_error(&mut self, ip: &str, token: &str, path: &str, now: i64) -> (r: ApiError)
        requires
            old(self).wf(),
        ensures
            final(self).wf(),
            final(self).uptime == old(self).uptime,
            final(self).last_exit_try == old(self).last_exit_try,
            r is InvalidToken,
            final(self).projects == old(self).projects,
            final(self).config == old(self).config,
            final(self).logs.logs@.len() == old(self).logs.logs@.len() + 1,
            final(self).logs.logs@.drop_last() == old(self).logs.logs@,
            final(self).logs.logs@.last().log_type == LogType::Info,
            final(self).logs.logs@.last().data@ == "[WEB] ["@ + ip@ + "] Tried Invalid token `"@
                + token@ + "` on `"@ + path@ + "`"@,
    {
        let mut m = String::from_str("[WEB] [");
        push_str(&mut m, ip);
        push_str(&mut m, "] Tried Invalid token `");
        push_str(&mut m, token);
        push_str(&mut m, "` on `");
        push_str(&mut m, path);
        push_str(&mut m, "`");
        self.log(LogType::Info, m, now);
        assert(self.logs.logs@.drop_last() =~= old(self).logs.logs@);
        ApiError::InvalidToken
    }

    /// `/ping`: the class of a valid token; an invalid one is logged, with
    /// the address it came from and the path it tried, and refused.
    pub fn ping(&mut self, token: &str, ip: &str, path: &str, now: i64) -> (r: Result<&'static str, ApiError>)
        requires
            old(self).wf(),
        ensures
            final(self).wf(),
            final(self).config == old(self).config,
            final(self).uptime == old(self).uptime,
            final(self).last_exit_try == old(self).last_exit_try,
            final(self).projects == old(self).projects,
            satisfies(ValidateType::Any, old(self).config.api.token@, old(self).projects@, token@) ==> {
                &&& r is Ok
                &&& r->Ok_0@ == (if token@ == old(self).config.api.token@ { "global"@ } else { "scoped"@ })
                &&& final(self).logs == old(self).logs
            },
            !satisfies(ValidateType::Any, old(self).config.api.token@, old(self).projects@, token@) ==> {
                &&& (r matches Err(ApiError::InvalidToken))
                &&& final(self).logs.logs@.len() == old(self).logs.logs@.len() + 1
                &&& final(self).logs.logs@.last().data@ == "[WEB] ["@ + ip@ + "] Tried Invalid token `"@
                    + token@ + "` on `"@ + path@ + "`"@
            },
    {
        if !ValidateType::Any.validate(self, token) {
            return Err(self.token_error(ip, token, path, now));
        }
        let t = ValidateType::token_type(self, token);
        Ok(t.name())
    }
}

/// An app's name and state, as `/status` lists it.
pub struct AppSummary {
    pub name: String,
    pub status: ProjectStatus,
}

/// What `/status` returns, but for the machine's metrics.
pub struct StatusView {
    /// Wall-clock second at which the daemon started.
    pub uptime: i64,
    pub apps: Vec<AppSummary>,
    /// The oldest log entries, at most twenty.
    pub logs: Vec<Log>,
}

/// What `/app/info` returns, but for the child's memory and threads.
pub struct InfoView {
    pub name: String,
    pub status: ProjectStatus,
    /// The captured standard output, as text.
    pub stdout: String,
    pub stderr: String,
    /// The live child's process id; none without a child.
    pub pid: Option<u32>,
    /// Wall-clock second at which the current run began; zero when not running.
    pub uptime: u64,
}

/// How many log entries `/status` shows.
pub const STATUS_LOGS: usize = 20;

/// The text that bytes read as UTF-8 give, each invalid sequence replaced by
/// U+FFFD.
pub uninterp spec fn utf8_lossy(b: Seq<u8>) -> Seq<char>;

/// Relies on std's `String::from_utf8_lossy`: the bytes as UTF-8, invalid
/// sequences replaced; no bytes give an empty text.
#[verifier::external_body]
fn lossy_text(b: &[u8]) -> (r: String)
    ensures
        r@ == utf8_lossy(b@),
        b@.len() == 0 ==> r@.len() == 0,
{
    String::from_utf8_lossy(b).into_owned()
}

impl App {
    /// `/status` for the global token: the daemon's start time, every app's
    /// name and state, and the oldest log entries.
    pub fn status_view(&self, token: &str) -> (r: Result<StatusView, ApiError>)
        ensures
            !satisfies(ValidateType::Global, self.config.api.token@, self.projects@, token@)
                ==> (r matches Err(ApiError::InvalidToken)),
            satisfies(ValidateType::Global, self.config.api.token@, self.projects@, token@) ==> {
                &&& r is Ok
                &&& r->Ok_0.uptime == self.uptime
                &&& r->Ok_0.apps@.len() == self.projects@.len()
                &&& forall|i: int| 0 <= i < self.projects@.len() ==> {
                    &&& (#[trigger] r->Ok_0.apps@[i]).name@ == self.projects@[i].name@
                    &&& r->Ok_0.apps@[i].status == self.projects@[i].status
                }
                &&& r->Ok_0.logs@ == self.logs.logs@.take(
                    if STATUS_LOGS < self.logs.logs@.len() { STATUS_LOGS as int } else { self.logs.logs@.len() as int },
                )
            },
    {
        if !ValidateType::Global.validate(self, token) {
            return Err(ApiError::InvalidToken);
        }
        let mut apps: Vec<AppSummary> = Vec::new();
        let mut i: usize = 0;
        while i < self.projects.len()
            invariant
                i <= self.projects@.len(),
                apps@.len() == i,
                forall|j: int| 0 <= j < i ==> {
                    &&& (#[trigger] apps@[j]).name@ == self.projects@[j].name@
                    &&& apps@[j].status == self.projects@[j].status
                },
            decreases self.projects@.len() - i,
        {
            apps.push(AppSummary { name: self.projects[i].name.clone(), status: self.projects[i].status });
            i = i + 1;
        }
        Ok(StatusView { uptime: self.uptime, apps, logs: self.logs.head(STATUS_LOGS) })
    }

    /// `/app/info` for a token of app `name`: its state, captured output,
    /// and its child's process id and start time.
    pub fn info_view(&self, token: &str, name: &str) -> (r: Result<InfoView, ApiError>)
        ensures
            !crate::auth::scoped_ok(self.config.api.token@, self.projects@, name@, token@)
                ==> (r matches Err(ApiError::InvalidToken)),
            crate::auth::scoped_ok(self.config.api.token@, self.projects@, name@, token@) ==> {
                &&& !has_named(self.projects@, name@) ==> (r matches Err(ApiError::InvalidApp))
                &&& has_named(self.projects@, name@) ==> exists|i: int| #[trigger]
                    is_first_named(self.projects@, name@, i) && (r matches Ok(v)
                        && v.name == self.projects@[i].name
                        && v.status == self.projects@[i].status
                        && v.stdout@ == utf8_lossy(self.projects@[i].process.stdout@)
                        && v.stderr@ == utf8_lossy(self.projects@[i].process.stderr@)
                        && v.pid == self.projects@[i].process.process
                        && v.uptime == self.projects@[i].process.uptime)
            },
    {
        if !ValidateType::Scoped(String::from_str(name)).validate(self, token) {
            return Err(ApiError::InvalidToken);
        }
        let i = match self.find(name) {
            Some(i) => i,
            None => return Err(ApiError::InvalidApp),
        };
        let p = &self.projects[i];
        Ok(InfoView {
            name: p.name.clone(),
            status: p.status,
            stdout: lossy_text(p.process.stdout.as_slice()),
            stderr: lossy_text(p.process.stderr.as_slice()),
            pid: p.process.process,
            uptime: p.process.uptime,
        })
    }

    /// `/logs` for the global token: one window of the log.
    pub fn logs_view(&self, token: &str, page: usize, lines: usize, end_time: Option<i64>, rev: Option<bool>) -> (r: Result<LogPage, ApiError>)
        ensures
            !satisfies(ValidateType::Global, self.config.api.token@, self.projects@, token@)
                ==> (r matches Err(ApiError::InvalidToken)),
            satisfies(ValidateType::Global, self.config.api.token@, self.projects@, token@) ==> {
                &&& r is Ok
                &&& r->Ok_0.logs@ == window_logs(self.logs.logs@, page as nat, lines as nat, end_time, rev)
                &&& r->Ok_0.end == page_is_end(visible(self.logs.logs@, end_time), page as nat, lines as nat)
            },
    {
        if !ValidateType::Global.validate(self, token) {
            return Err(ApiError::InvalidToken);
        }
        Ok(self.logs.window(page, lines, end_time, rev))
    }
}

/// The message given when a reloaded app's configuration could not be read.
pub open spec fn unloaded_message() -> Seq<char> {
    "New project is invalid. Project unloaded."@
}

impl App {
    /// The last step of a reload, with the configuration read again as
    /// `fresh`: refused, with nothing changed, where the app (the first of
    /// its name) is running by now; else every app of that name is replaced
    /// by `fresh`, or removed where no fresh supervisor could be made, which
    /// is reported as a failure.
    pub fn reload_checked(&mut self, name: &str, fresh: Option<Project>) -> (r: Result<(), ApiError>)
        requires
            old(self).wf(),
            fresh matches Some(p) ==> p.wf(),
        ensures
            final(self).wf(),
            final(self).config == old(self).config,
            final(self).uptime == old(self).uptime,
            final(self).logs == old(self).logs,
            final(self).last_exit_try == old(self).last_exit_try,
            (exists|i: int| is_first_named(old(self).projects@, name@, i)
                && (#[trigger] old(self).projects@[i]).status == ProjectStatus::Running) ==> {
                &&& (r matches Err(ApiError::StillRunning))
                &&& final(self).projects == old(self).projects
            },
            !(exists|i: int| is_first_named(old(self).projects@, name@, i)
                && (#[trigger] old(self).projects@[i]).status == ProjectStatus::Running) ==> {
                &&& final(self).projects@ == without_named(old(self).projects@, name@)
                    + match fresh { Some(p) => seq![p], None => Seq::empty() }
                &&& fresh is Some ==> r is Ok
                &&& fresh is None ==> (r matches Err(ApiError::Io(m)) && m@ == unloaded_message())
            },
    {
        match self.find(name) {
            Some(i) => {
                if self.projects[i].status.is_running() {
                    return Err(ApiError::StillRunning);
                }
                proof {
                    assert forall|k: int| is_first_named(self.projects@, name@, k) implies
                        (#[trigger] self.projects@[k]).status != ProjectStatus::Running by {
                        if k < i {
                        } else if k > i {
                            assert(self.projects@[i as int].name@ == name@);
                        }
                    }
                }
            },
            None => {},
        }
        let vanished = fresh.is_none();
        self.reload(name, fresh);
        if vanished {
            Err(ApiError::Io(String::from_str("New project is invalid. Project unloaded.")))
        } else {
            Ok(())
        }
    }
}

fn clone_opt(s: &Option<String>) -> (r: Option<String>)
    ensures
        r == *s,
{
    match s {
        Some(x) => Some(x.clone()),
        None => None,
    }
}

/// What `plan_action` returns for a request on app `i`, the first of its name.
pub open spec fn action_planned(app: &App, req: &ActionRequest, i: int, r: Result<ActionPlan, ApiError>) -> bool {
    let p = app.projects@[i];
    match req.action {
        ActionType::Stop => if p.status == ProjectStatus::Stopped {
            r matches Err(ApiError::AlreadyStopped)
        } else {
            match req.signal {
                Some(s) => if is_signal_name(s@) || well_known_signal(s@) {
                    r matches Ok(ActionPlan::Stop { index, signal }) && index == i && signal@ == s@
                } else {
                    r matches Err(ApiError::InvalidSignal)
                },
                None => r matches Ok(ActionPlan::Stop { index, signal }) && index == i && signal@ == "SIGINT"@,
            }
        },
        ActionType::Start => if p.status == ProjectStatus::Running {
            r matches Err(ApiError::AlreadyRunning)
        } else {
            r matches Ok(ActionPlan::Start { index }) && index == i
        },
        ActionType::Update => if p.status == ProjectStatus::Running {
            r matches Err(ApiError::StillRunning)
        } else {
            match p.config.git.repo {
                None => r matches Ok(ActionPlan::Update { index, repo, data }) && index == i && repo is None
                    && data == req.data,
                Some(url) => match req.branch {
                    None => r matches Err(ApiError::NoBranch),
                    Some(b) => r matches Ok(ActionPlan::Update { index, repo, data }) && index == i
                        && data == req.data && (repo matches Some(u) && u.url == url && u.branch == b
                        && u.checkout == req.checkout
                        && u.force == (req.force == Some(true))
                        && u.remote@ == (match req.remote { Some(x) => x@, None => "origin"@ })),
                },
            }
        },
        ActionType::Reload => if p.status == ProjectStatus::Running {
            r matches Err(ApiError::StillRunning)
        } else {
            r matches Ok(ActionPlan::Reload { index }) && index == i
        },
    }
}

} // verus!
