use chalk::logs::{log_file_name, push_line, Log, LogStore, LogType};

fn store_with(n: i64) -> LogStore {
    let mut s = LogStore::new();
    for k in 1..=n {
        s.log(LogType::Info, format!("e{k}"), k);
    }
    s
}

fn texts(logs: &[Log]) -> Vec<String> {
    logs.iter().map(|l| l.data.clone()).collect()
}

fn range(from: i64, to: i64) -> Vec<String> {
    if from >= to {
        (to..=from).rev().map(|k| format!("e{k}")).collect()
    } else {
        (from..=to).map(|k| format!("e{k}")).collect()
    }
}

#[test]
fn paging_newest_first() {
    let s = store_with(45);
    let p0 = s.window(0, 20, None, None);
    assert_eq!(texts(&p0.logs), range(45, 26));
    assert!(!p0.end);
    let p1 = s.window(1, 20, None, None);
    assert_eq!(texts(&p1.logs), range(25, 6));
    assert!(!p1.end);
    let p2 = s.window(2, 20, None, None);
    assert_eq!(texts(&p2.logs), range(5, 1));
    assert!(p2.end);
}

#[test]
fn paging_reversed_is_same_entries_oldest_first() {
    let s = store_with(45);
    let fwd = s.window(1, 20, None, Some(false));
    let back = s.window(1, 20, None, Some(true));
    let mut f = texts(&fwd.logs);
    f.reverse();
    assert_eq!(texts(&back.logs), f);
    assert_eq!(texts(&back.logs), range(6, 25));
    assert_eq!(fwd.end, back.end);
}

#[test]
fn paging_past_the_end_is_empty() {
    let s = store_with(45);
    let p = s.window(3, 20, None, None);
    assert!(p.logs.is_empty());
    assert!(p.end);
    let empty = LogStore::new().window(0, 20, None, None);
    assert!(empty.logs.is_empty());
    assert!(empty.end);
}

#[test]
fn paging_with_end_time() {
    let s = store_with(45);
    let p = s.window(0, 5, Some(10), None);
    assert_eq!(texts(&p.logs), range(10, 6));
    assert!(!p.end);
    let q = s.window(1, 5, Some(10), None);
    assert_eq!(texts(&q.logs), range(5, 1));
    assert!(q.end);
}

#[test]
fn log_line_format() {
    let mut out = String::new();
    let l = Log { log_type: LogType::Info, time: 3661, data: "hi".to_string() };
    push_line(&mut out, &l, 0);
    assert_eq!(out, "[01:01:01] [info] hi\n");
    let mut out = String::new();
    let e = Log { log_type: LogType::Error, time: 86399, data: "x".to_string() };
    push_line(&mut out, &e, 3600);
    assert_eq!(out, "[00:59:59] [error] x\n");
    let mut out = String::new();
    let n = Log { log_type: LogType::Info, time: 0, data: "y".to_string() };
    push_line(&mut out, &n, -3600);
    assert_eq!(out, "[23:00:00] [info] y\n");
}

fn flush(s: &mut LogStore, force: bool, now: u64) -> Option<String> {
    let f = s.log_tick(force, now, 0)?;
    s.mark_saved(f.upto, now);
    Some(f.text)
}

#[test]
fn flush_writes_unsaved_entries_once_a_minute() {
    let mut s = LogStore::new();
    s.log(LogType::Info, "a".to_string(), 0);
    s.log(LogType::Error, "b".to_string(), 1);
    let first = flush(&mut s, false, 100);
    assert_eq!(first.as_deref(), Some("[00:00:00] [info] a\n[00:00:01] [error] b\n"));
    assert_eq!(s.log_save_index, 2);
    assert_eq!(s.last_log_save, 100);
    s.log(LogType::Info, "c".to_string(), 2);
    assert!(flush(&mut s, false, 130).is_none());
    assert_eq!(s.log_save_index, 2);
    assert_eq!(flush(&mut s, false, 160).as_deref(), Some("[00:00:02] [info] c\n"));
    assert_eq!(s.log_save_index, 3);
}

#[test]
fn unwritten_flush_is_offered_again() {
    let mut s = LogStore::new();
    s.log(LogType::Info, "a".to_string(), 0);
    let f = s.log_tick(false, 100, 0).unwrap();
    assert_eq!(f.upto, 1);
    assert_eq!(s.log_save_index, 0);
    assert_eq!(s.log_tick(false, 101, 0).unwrap().text, f.text);
}

#[test]
fn forced_flush_ignores_the_minute() {
    let mut s = LogStore::new();
    s.log(LogType::Info, "a".to_string(), 0);
    assert!(flush(&mut s, true, 0).is_some());
    assert!(flush(&mut s, true, 1).is_none());
    s.log(LogType::Info, "b".to_string(), 1);
    assert!(flush(&mut s, true, 2).is_some());
}

#[test]
fn log_file_is_named_by_utc_date() {
    assert_eq!(log_file_name(0).as_deref(), Some("1970-01-01.log"));
    assert_eq!(log_file_name(1_700_000_000).as_deref(), Some("2023-11-14.log"));
}

#[test]
fn log_type_names() {
    assert_eq!(LogType::Info.name(), "info");
    assert_eq!(LogType::Error.name(), "error");
}

#[test]
fn paging_with_largest_sizes() {
    let s = store_with(3);
    let p = s.window(usize::MAX, usize::MAX, None, None);
    assert!(p.logs.is_empty());
    assert!(p.end);
    let q = s.window(0, usize::MAX, None, Some(true));
    assert_eq!(texts(&q.logs), range(1, 3));
    assert!(q.end);
}

#[test]
fn paging_with_zero_lines() {
    let s = store_with(3);
    let p = s.window(0, 0, None, None);
    assert!(p.logs.is_empty());
    assert!(!p.end);
}
