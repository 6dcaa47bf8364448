use chalk::auth::ValidateType;
use chalk::api::{ActionPlan, ActionRequest, ActionType, ApiError};
use chalk::config::{Api, Config, ProjectConfig, ProjectGitConfig, ProjectRunConfig};
use chalk::daemon::{App, ConfigRead};
use chalk::logs::{LogStore, LogType};
use chalk::project::Project;
use chalk::status::{ExitInfo, ProjectStatus};

fn config(token: &str) -> Config {
    Config {
        app_dir: "./apps".to_string(),
        task_poll: 1000,
        api: Api { token: token.to_string(), host: "localhost".to_string(), port: 3401, workers: 10 },
    }
}

fn project_config(name: &str, token: &str, repo: Option<&str>) -> ProjectConfig {
    ProjectConfig {
        name: name.to_string(),
        api_token: token.to_string(),
        run: ProjectRunConfig {
            path: ".".to_string(),
            command: "binary".to_string(),
            arguments: vec![],
            environment_vars: vec![],
        },
        git: ProjectGitConfig { repo: repo.map(|r| r.to_string()), username: None, token: None, ssh_key_file: None },
    }
}

fn app_with(names: &[(&str, &str)]) -> App {
    let mut app = App::new(config("G"), 1000);
    for (n, t) in names {
        app.add_project(Project::from_raw(project_config(n, t, None), format!("/apps/{n}")));
    }
    app
}

fn request(name: &str, token: &str, action: ActionType) -> ActionRequest {
    ActionRequest {
        token: token.to_string(),
        name: name.to_string(),
        action,
        signal: None,
        data: None,
        remote: None,
        branch: None,
        checkout: None,
        force: None,
    }
}

#[test]
fn ping_with_global_token() {
    let mut app = app_with(&[("a1", "s1")]);
    assert_eq!(app.ping("G", "127.0.0.1", "/ping", 5).unwrap(), "global");
    assert_eq!(app.logs.logs.len(), 0);
}

#[test]
fn ping_with_scoped_token() {
    let mut app = app_with(&[("a1", "s1")]);
    assert_eq!(app.ping("s1", "127.0.0.1", "/ping", 5).unwrap(), "scoped");
}

#[test]
fn ping_with_wrong_token() {
    let mut app = app_with(&[("a1", "s1")]);
    let e = app.ping("nope", "10.0.0.2", "/ping", 5).unwrap_err();
    assert_eq!(e.status(), 400);
    assert_eq!(e.message(), "Invalid Token");
    assert_eq!(app.logs.logs.len(), 1);
    assert_eq!(app.logs.logs[0].data, "[WEB] [10.0.0.2] Tried Invalid token `nope` on `/ping`");
}

#[test]
fn lifecycle_start_info_stop() {
    let mut app = app_with(&[("a1", "s1")]);
    let plan = app.plan_action(&request("a1", "G", ActionType::Start)).unwrap();
    let i = match plan {
        ActionPlan::Start { index } => index,
        _ => panic!("expected a start"),
    };
    assert!(app.start_project(i, true, 10));
    app.project_started(i, 4242, 10);
    app.log_action("127.0.0.1", ActionType::Start, "a1", 10);
    assert_eq!(app.logs.logs.last().unwrap().data, "[WEB] [127.0.0.1] Triggered start on a1");

    let info = app.info_view("G", "a1").ok().unwrap();
    assert_eq!(info.status.state_name(), "running");
    assert_eq!(info.pid, Some(4242));
    assert_eq!(info.uptime, 10);

    let mut stop = request("a1", "G", ActionType::Stop);
    stop.signal = Some("SIGTERM".to_string());
    match app.plan_action(&stop).unwrap() {
        ActionPlan::Stop { index, signal } => {
            assert_eq!(signal, "SIGTERM");
            assert_eq!(app.stop_project(index, &signal, 11), Some(4242));
        }
        _ => panic!("expected a stop"),
    }
    assert_eq!(app.logs.logs.last().unwrap().data, "Stopping `a1` with `SIGTERM`");
    assert!(app.projects[0].status.is_running());

    app.poll_project(0, b"out\n".to_vec(), vec![], Some(ExitInfo { success: true, code: Some(0) }));
    let info = app.info_view("G", "a1").ok().unwrap();
    assert_eq!(info.status.state_name(), "stopped");
    assert_eq!(info.pid, None);
    assert_eq!(info.uptime, 0);
    assert_eq!(info.stdout, "out\n");
}

#[test]
fn crash_sets_crashed_with_code() {
    let mut app = app_with(&[("a1", "s1")]);
    app.project_started(0, 7, 3);
    app.poll_project(0, vec![], b"boom".to_vec(), Some(ExitInfo { success: false, code: Some(137) }));
    assert_eq!(app.projects[0].status, ProjectStatus::Crashed(Some(137)));
    let v = app.status_view("G").ok().unwrap();
    assert_eq!(v.apps.len(), 1);
    assert_eq!(v.apps[0].status, ProjectStatus::Crashed(Some(137)));
    assert_eq!(v.uptime, 1000);
}

#[test]
fn status_needs_global_token() {
    let app = app_with(&[("a1", "s1")]);
    assert!(matches!(app.status_view("s1"), Err(ApiError::InvalidToken)));
}

#[test]
fn status_shows_first_twenty_logs() {
    let mut app = app_with(&[]);
    for k in 0..25 {
        app.log(LogType::Info, format!("e{k}"), k);
    }
    let v = app.status_view("G").ok().unwrap();
    assert_eq!(v.logs.len(), 20);
    assert_eq!(v.logs[0].data, "e0");
    assert_eq!(v.logs[19].data, "e19");
}

#[test]
fn stop_on_stopped_app_is_refused_without_log() {
    let app = app_with(&[("a1", "s1")]);
    let before = app.logs.logs.len();
    let e = app.plan_action(&request("a1", "G", ActionType::Stop)).err().unwrap();
    assert_eq!(e.message(), "App Already Stopped");
    assert_eq!(e.status(), 400);
    assert_eq!(app.logs.logs.len(), before);
}

#[test]
fn stop_with_unknown_signal_is_refused() {
    let mut app = app_with(&[("a1", "s1")]);
    app.project_started(0, 9, 1);
    let mut r = request("a1", "G", ActionType::Stop);
    r.signal = Some("SIGNOPE".to_string());
    assert_eq!(app.plan_action(&r).err().unwrap().message(), "invalid signal");
}

#[test]
fn stop_defaults_to_sigint() {
    let mut app = app_with(&[("a1", "s1")]);
    app.project_started(0, 9, 1);
    match app.plan_action(&request("a1", "s1", ActionType::Stop)).unwrap() {
        ActionPlan::Stop { signal, .. } => assert_eq!(signal, "SIGINT"),
        _ => panic!("expected a stop"),
    }
}

#[test]
fn start_on_running_app_is_refused() {
    let mut app = app_with(&[("a1", "s1")]);
    app.project_started(0, 9, 1);
    let e = app.plan_action(&request("a1", "G", ActionType::Start)).err().unwrap();
    assert_eq!(e.message(), "App Already Running");
    let e = app.plan_action(&request("a1", "G", ActionType::Reload)).err().unwrap();
    assert_eq!(e.message(), "App is still running");
    let e = app.plan_action(&request("a1", "G", ActionType::Update)).err().unwrap();
    assert_eq!(e.message(), "App is still running");
}

#[test]
fn update_without_repo_or_data_is_a_no_op() {
    let app = app_with(&[("a1", "s1")]);
    match app.plan_action(&request("a1", "G", ActionType::Update)).unwrap() {
        ActionPlan::Update { index, repo, data } => {
            assert_eq!(index, 0);
            assert!(repo.is_none());
            assert!(data.is_none());
        }
        _ => panic!("expected an update"),
    }
}

#[test]
fn update_from_repo_needs_branch() {
    let mut app = App::new(config("G"), 0);
    app.add_project(Project::from_raw(project_config("a1", "s1", Some("https://example.com/r.git")), "/a".to_string()));
    let e = app.plan_action(&request("a1", "G", ActionType::Update)).err().unwrap();
    assert_eq!(e.message(), "No Branch defined");
    let mut r = request("a1", "G", ActionType::Update);
    r.branch = Some("main".to_string());
    match app.plan_action(&r).unwrap() {
        ActionPlan::Update { repo: Some(u), .. } => {
            assert_eq!(u.branch, "main");
            assert_eq!(u.remote, "origin");
            assert_eq!(u.url, "https://example.com/r.git");
            assert!(!u.force);
        }
        _ => panic!("expected a repository update"),
    }
}

#[test]
fn scoped_token_of_other_app_is_refused() {
    let app = app_with(&[("a1", "s1"), ("a2", "s2")]);
    assert!(matches!(app.plan_action(&request("a1", "s2", ActionType::Start)), Err(ApiError::InvalidToken)));
    assert!(matches!(app.plan_action(&request("a1", "s1", ActionType::Start)), Ok(ActionPlan::Start { index: 0 })));
    assert!(matches!(app.plan_action(&request("zz", "G", ActionType::Start)), Err(ApiError::InvalidApp)));
}

#[test]
fn two_starts_give_one_child() {
    let mut app = app_with(&[("a1", "s1")]);
    assert!(app.start_project(0, true, 1));
    app.project_started(0, 100, 1);
    assert!(!app.start_project(0, true, 2));
    assert_eq!(app.logs.logs.last().unwrap().data, "Process already started `a1`");
    assert_eq!(app.projects[0].process.process, Some(100));
}

#[test]
fn start_without_binary_logs_error() {
    let mut app = app_with(&[("a1", "s1")]);
    assert!(!app.start_project(0, false, 1));
    let l = app.logs.logs.last().unwrap();
    assert_eq!(l.log_type, LogType::Error);
    assert_eq!(l.data, "No runable binary `a1`");
    assert_eq!(app.projects[0].status, ProjectStatus::Stopped);
}

#[test]
fn start_then_stop_restores_stopped() {
    let mut app = app_with(&[("a1", "s1")]);
    let before = app.projects[0].status;
    app.project_started(0, 5, 50);
    app.poll_project(0, vec![], vec![], None);
    assert!(app.projects[0].status.is_running());
    assert_eq!(app.stop_project(0, "SIGINT", 51), Some(5));
    app.poll_project(0, vec![], vec![], Some(ExitInfo { success: true, code: Some(0) }));
    assert_eq!(app.projects[0].status, before);
    assert_eq!(app.projects[0].process.process, None);
    assert_eq!(app.projects[0].process.uptime, 0);
}

#[test]
fn reload_of_stopped_app_keeps_status() {
    let mut app = app_with(&[("a1", "s1"), ("a2", "s2")]);
    let fresh = Project::load_project(&mut app, "a1", "/apps/a1".to_string(), ConfigRead::Parsed(project_config("a1", "s1", None)), 3);
    assert_eq!(app.logs.logs.last().unwrap().data, "Loading app `a1`");
    app.reload("a1", fresh);
    assert_eq!(app.projects.len(), 2);
    assert_eq!(app.projects[0].name, "a2");
    assert_eq!(app.projects[1].name, "a1");
    assert_eq!(app.projects[1].status, ProjectStatus::Stopped);
}

#[test]
fn load_project_failures_are_logged() {
    let mut app = app_with(&[]);
    assert!(Project::load_project(&mut app, "x", "/x".to_string(), ConfigRead::Missing, 1).is_none());
    assert_eq!(app.logs.logs.last().unwrap().data, "App config file not found! (config.toml)");
    let r = Project::load_project(&mut app, "y", "/y".to_string(), ConfigRead::Invalid("bad key".to_string()), 1);
    assert!(r.is_none());
    assert_eq!(app.logs.logs.last().unwrap().data, "Invalid app config: bad key");
    assert_eq!(app.logs.logs.last().unwrap().log_type, LogType::Error);
}

#[test]
fn reload_of_vanished_app_removes_it() {
    let mut app = app_with(&[("a1", "s1"), ("a2", "s2")]);
    app.reload("a1", None);
    assert_eq!(app.projects.len(), 1);
    assert_eq!(app.projects[0].name, "a2");
}

#[test]
fn second_signal_within_five_seconds_forces() {
    let mut app = app_with(&[("a1", "s1"), ("a2", "s2")]);
    app.project_started(1, 77, 1);
    let first = app.on_exit_signal(100);
    assert!(!first.force);
    assert_eq!(first.signal(), "SIGINT");
    assert_eq!(first.pids, vec![77]);
    let second = app.on_exit_signal(103);
    assert!(second.force);
    assert_eq!(second.signal(), "SIGKILL");
    assert!(app.logs.logs.iter().any(|l| l.data == "Shutting down (FORCE)"));
    assert!(app.logs.logs.iter().any(|l| l.data == "Shutting down"));
    let third = app.on_exit_signal(200);
    assert!(!third.force);
}

#[test]
fn exit_waits_for_children() {
    let mut app = app_with(&[("a1", "s1")]);
    assert!(!app.should_exit());
    app.project_started(0, 77, 1);
    app.on_exit_signal(100);
    assert!(!app.should_exit());
    assert!(!Project::any_running(&app));
    let idle = app_with(&[("b", "t")]);
    assert!(Project::any_running(&idle));
    app.poll_project(0, vec![], vec![], Some(ExitInfo { success: false, code: None }));
    assert!(app.should_exit());
}

#[test]
fn poll_appends_output() {
    let mut p = Project::from_raw(project_config("a", "t", None), "/a".to_string());
    p.poll(b"ignored".to_vec(), vec![], None);
    assert!(p.process.stdout.is_empty());
    p.started(3, 9);
    p.poll(b"ab".to_vec(), b"x".to_vec(), None);
    p.poll(b"cd".to_vec(), vec![], None);
    assert_eq!(p.process.stdout, b"abcd".to_vec());
    assert_eq!(p.process.stderr, b"x".to_vec());
}

#[test]
fn default_config_has_fresh_token() {
    let c = Config::default();
    assert_eq!(c.app_dir, "./apps");
    assert_eq!(c.task_poll, 1000);
    assert_eq!(c.api.port, 3401);
    assert_eq!(c.api.workers, 10);
    assert_eq!(c.api.host, "localhost");
    assert_eq!(c.api.token.len(), 15);
    assert!(c.api.token.chars().all(|ch| ch.is_ascii_alphanumeric()));
}

#[test]
fn log_store_appends_in_order() {
    let mut s = LogStore::new();
    s.log(LogType::Info, "a".to_string(), 1);
    s.log(LogType::Error, "b".to_string(), 2);
    assert_eq!(s.logs.len(), 2);
    assert_eq!(s.logs[1].data, "b");
    assert_eq!(s.log_save_index, 0);
}

#[test]
fn daemon_flush_uses_local_clock() {
    let mut app = app_with(&[]);
    app.log(LogType::Info, "a".to_string(), 0);
    let flush = app.log_tick(false, 100).unwrap();
    let text = flush.text;
    app.logs_saved(flush.upto, 100);
    assert!(text.starts_with('['));
    assert!(text.ends_with("] [info] a\n"));
    assert_eq!(text.len(), "[00:00:00] [info] a\n".len());
    assert_eq!(app.logs.log_save_index, 1);
    assert!(app.log_tick(false, 120).is_none());
}

#[test]
fn duplicate_names_resolve_to_first() {
    let mut app = app_with(&[("a1", "s1"), ("a1", "s9")]);
    assert_eq!(app.find("a1"), Some(0));
    assert!(matches!(app.plan_action(&request("a1", "s9", ActionType::Start)), Err(ApiError::InvalidToken)));
    app.reload("a1", None);
    assert!(app.projects.is_empty());
}

#[test]
fn error_messages_and_statuses() {
    let cases = [
        (ApiError::InvalidApp, "Invalid App", 400),
        (ApiError::RemoteNotFound, "Remote not found", 400),
        (ApiError::InvalidReference, "Invalid reference", 400),
        (ApiError::NoBranch, "No Branch defined", 400),
        (ApiError::InvalidPayload("bad json".to_string()), "bad json", 400),
        (ApiError::Io("disk full".to_string()), "disk full", 500),
    ];
    for (e, msg, status) in cases {
        assert_eq!(e.message(), msg);
        assert_eq!(e.status(), status);
    }
}

#[test]
fn token_classes() {
    let app = app_with(&[("a1", "s1"), ("a2", "s2")]);
    assert_eq!(ValidateType::token_type(&app, "G").name(), "global");
    match ValidateType::token_type(&app, "s2") {
        ValidateType::Scoped(n) => assert_eq!(n, "a2"),
        _ => panic!("expected a scoped token"),
    }
    assert_eq!(ValidateType::token_type(&app, "x").name(), "any");
    assert!(ValidateType::Global.validate(&app, "G"));
    assert!(!ValidateType::Global.validate(&app, "s1"));
    assert!(ValidateType::Scoped("a1".to_string()).validate(&app, "s1"));
    assert!(ValidateType::Scoped("a1".to_string()).validate(&app, "G"));
    assert!(!ValidateType::Scoped("a2".to_string()).validate(&app, "s1"));
    assert!(ValidateType::Any.validate(&app, "s2"));
    assert!(!ValidateType::Any.validate(&app, "x"));
}

#[test]
fn logs_view_needs_global_token() {
    let mut app = app_with(&[("a1", "s1")]);
    app.log(LogType::Info, "x".to_string(), 1);
    assert!(matches!(app.logs_view("s1", 0, 10, None, None), Err(ApiError::InvalidToken)));
    let page = app.logs_view("G", 0, 10, None, None).ok().unwrap();
    assert_eq!(page.logs.len(), 1);
    assert!(page.end);
}

#[test]
fn reload_refused_while_running() {
    let mut app = app_with(&[("a1", "s1")]);
    app.project_started(0, 5, 9);
    let fresh = Project::from_raw(project_config("a1", "s1", None), "/apps/a1".to_string());
    assert!(matches!(app.reload_checked("a1", Some(fresh)), Err(ApiError::StillRunning)));
    assert_eq!(app.projects.len(), 1);
    assert!(app.projects[0].status.is_running());
}

#[test]
fn reload_of_vanished_config_is_reported() {
    let mut app = app_with(&[("a1", "s1"), ("a2", "s2")]);
    let e = app.reload_checked("a1", None).unwrap_err();
    assert_eq!(e.status(), 500);
    assert_eq!(e.message(), "New project is invalid. Project unloaded.");
    assert_eq!(app.projects.len(), 1);
    let fresh = Project::from_raw(project_config("a2", "s2", None), "/apps/a2".to_string());
    assert!(app.reload_checked("a2", Some(fresh)).is_ok());
    assert_eq!(app.projects[0].name, "a2");
}

#[test]
fn start_paths() {
    let p = Project::from_raw(project_config("a1", "s1", None), "/apps/a1".to_string());
    assert_eq!(p.binary_path(), "/apps/a1/binary");
    assert_eq!(p.work_dir(), "/apps/a1/repo");
}

#[test]
fn start_at_clock_zero_still_has_start_time() {
    let mut app = app_with(&[("a1", "s1")]);
    app.project_started(0, 5, 0);
    assert_eq!(app.projects[0].process.uptime, 1);
}

#[test]
fn token_spelled_from_draws() {
    let draws = b"abcXYZ012345678".to_vec();
    assert_eq!(chalk::config::token_from(&draws), "abcXYZ012345678");
}

#[test]
fn spawn_failure_is_logged() {
    let mut app = app_with(&[("a1", "s1")]);
    app.spawn_failed(0, "no such file", 4);
    let l = app.logs.logs.last().unwrap();
    assert_eq!(l.log_type, LogType::Error);
    assert_eq!(l.data, "Error starting `a1`: no such file");
    assert_eq!(l.time, 4);
    assert_eq!(app.projects[0].status, ProjectStatus::Stopped);
}

#[test]
fn shutdown_logs_one_stop_per_live_child() {
    let mut app = app_with(&[("a1", "s1"), ("a2", "s2"), ("a3", "s3")]);
    app.project_started(0, 11, 1);
    app.project_started(2, 33, 1);
    let n = app.logs.logs.len();
    let order = app.on_exit_signal(100);
    assert_eq!(order.pids, vec![11, 33]);
    let texts: Vec<&str> = app.logs.logs[n..].iter().map(|l| l.data.as_str()).collect();
    assert_eq!(texts, vec!["Shutting down", "Stopping `a1` with `SIGINT`", "Stopping `a3` with `SIGINT`"]);
    assert!(app.logs.logs[n..].iter().all(|l| l.log_type == LogType::Info));
}
