//! The daemon's log store: an append-only sequence of entries, a persisted
//! prefix, the rendering of entries as lines of a day's log file, and the
//! paginated window that the control surface serves.
use vstd::prelude::*;
use vstd::arithmetic::div_mod::lemma_mod_multiples_vanish;
use crate::text::{dec2, digit, push_char, push_decimal, push_str};

verus! {

#[derive(Debug, Clone, Copy, PartialEq, Eq, Structural)]
pub enum LogType {
    Error,
    Info,
}

pub open spec fn log_type_name(t: LogType) -> Seq<char> {
    match t {
        LogType::Error => "error"@,
        LogType::Info => "info"@,
    }
}

impl LogType {
    /// The lower-case name of the kind, as logs and responses show it.
    pub fn name(&self) -> (r: &'static str)
        ensures
            r@ == log_type_name(*self),
    {
        proof {
            reveal_strlit("error");
            reveal_strlit("info");
        }
        match self {
            LogType::Error => "error",
            LogType::Info => "info",
        }
    }
}

/// One log entry.
pub struct Log {
    pub log_type: LogType,
    /// Seconds since the Unix epoch at which the entry was made.
    pub time: i64,
    pub data: String,
}

impl Log {
    pub fn copy(&self) -> (r: Log)
        ensures
            r == *self,
    {
        Log { log_type: self.log_type, time: self.time, data: self.data.clone() }
    }
}

/// Seconds that must pass between two flushes that are not forced.
pub const SAVE_INTERVAL: u64 = 60;

/// The entries, and how many of them have been written to disk.
pub struct LogStore {
    pub logs: Vec<Log>,
    /// The count of entries already written to the day's log file.
    pub log_save_index: usize,
    /// Wall-clock second of the last flush.
    pub last_log_save: u64,
}

/// Whether a flush is due: forced or a minute old, and something unwritten.
pub open spec fn tick_due(s: LogStore, force: bool, now: u64) -> bool {
    &&& (force || now - s.last_log_save >= SAVE_INTERVAL)
    &&& s.log_save_index < s.logs@.len()
}

/// A flush that is due: the text to append to the day's log file, and the
/// count of entries that are written once it is.
pub struct LogFlush {
    pub text: String,
    pub upto: usize,
}

/// The save stamp once a flush requested at `now` is written.
pub open spec fn next_last_save(s: LogStore, force: bool, now: u64) -> u64 {
    if tick_due(s, force, now) { now } else { s.last_log_save }
}

/// Two flush requests that are not forced and come less than a minute apart
/// write at most once, whatever was logged in between.
pub proof fn lemma_flush_at_most_once_a_minute(s0: LogStore, s1: LogStore, t1: u64, t2: u64)
    requires
        s1.last_log_save == next_last_save(s0, false, t1),
        t1 <= t2 < t1 + SAVE_INTERVAL,
    ensures
        !(tick_due(s0, false, t1) && tick_due(s1, false, t2)),
{
}

/// Second of the day of time `t`, seen at an offset of `off` seconds from UTC.
pub open spec fn day_second(t: int, off: int) -> nat {
    ((t + off) % 86400) as nat
}

/// `[HH:MM:SS]` of a day second.
pub open spec fn clock_text(sec: nat) -> Seq<char> {
    seq!['['] + dec2(sec / 3600) + seq![':'] + dec2((sec % 3600) / 60) + seq![':'] + dec2(sec % 60)
        + seq![']']
}

/// An entry as a line of the log file, without its line break.
pub open spec fn line_of(l: Log, off: int) -> Seq<char> {
    clock_text(day_second(l.time as int, off)) + " ["@ + log_type_name(l.log_type) + "] "@ + l.data@
}

/// Entries as lines, each followed by a line break.
pub open spec fn lines_text(s: Seq<Log>, off: int) -> Seq<char>
    decreases s.len(),
{
    if s.len() == 0 {
        Seq::empty()
    } else {
        lines_text(s.drop_last(), off) + line_of(s.last(), off) + seq!['\n']
    }
}

fn push_two_digits(out: &mut String, n: u64)
    requires
        n < 100,
    ensures
        final(out)@ == old(out)@ + dec2(n as nat),
{
    if n < 10 {
        push_char(out, '0');
        push_char(out, digit(n));
    } else {
        push_decimal(out, n);
    }
}

/// Second of the day of `t` at offset `off`, computed without overflow.
fn day_second_of(t: i64, off: i32) -> (r: u64)
    ensures
        r as nat == day_second(t as int, off as int),
        r < 86400,
{
    let shift: i128 = 86400i128 * 140737488355328i128;
    let y: i128 = t as i128 + off as i128 + shift;
    let r = ((y as u128) % 86400u128) as u64;
    proof {
        lemma_mod_multiples_vanish(140737488355328, t as int + off as int, 86400);
    }
    r
}

fn push_clock(out: &mut String, sec: u64)
    requires
        sec < 86400,
    ensures
        final(out)@ == old(out)@ + clock_text(sec as nat),
{
    let h = sec / 3600;
    let m = (sec % 3600) / 60;
    let s = sec % 60;
    let ghost o0 = out@;
    push_char(out, '[');
    push_two_digits(out, h);
    push_char(out, ':');
    push_two_digits(out, m);
    push_char(out, ':');
    push_two_digits(out, s);
    push_char(out, ']');
    proof {
        let n = sec as nat;
        assert(h as nat == n / 3600);
        assert(m as nat == (n % 3600) / 60);
        assert(s as nat == n % 60);
        assert(final(out)@ =~= o0 + clock_text(n));
    }
}

/// Appends the line of one entry, with its line break.
pub fn push_line(out: &mut String, l: &Log, off: i32)
    ensures
        final(out)@ == old(out)@ + line_of(*l, off as int) + seq!['\n'],
{
    let sec = day_second_of(l.time, off);
    push_clock(out, sec);
    push_str(out, " [");
    push_str(out, l.log_type.name());
    push_str(out, "] ");
    push_str(out, l.data.as_str());
    push_char(out, '\n');
    proof {
        reveal_strlit(" [");
        reveal_strlit("] ");
        assert(final(out)@ =~= old(out)@ + line_of(*l, off as int) + seq!['\n']);
    }
}

/// What two flushes write one after the other is what one flush of both
/// stretches would write: so the text of successive flushes is the lines of
/// every entry below the save index, in order.
pub proof fn lemma_flushes_concatenate(s: Seq<Log>, a: int, b: int, off: int)
    requires
        0 <= a <= b <= s.len(),
    ensures
        lines_text(s.subrange(0, a), off) + lines_text(s.subrange(a, b), off) == lines_text(s.subrange(0, b), off),
    decreases b - a,
{
    if b == a {
        assert(s.subrange(a, b) =~= Seq::<Log>::empty());
        assert(lines_text(s.subrange(a, b), off) =~= Seq::<char>::empty());
        assert(lines_text(s.subrange(0, a), off) + Seq::<char>::empty() =~= lines_text(s.subrange(0, a), off));
    } else {
        lemma_flushes_concatenate(s, a, b - 1, off);
        assert(s.subrange(a, b).drop_last() =~= s.subrange(a, b - 1));
        assert(s.subrange(0, b).drop_last() =~= s.subrange(0, b - 1));
        assert(s.subrange(a, b).last() == s.subrange(0, b).last());
        let x = lines_text(s.subrange(0, a), off);
        let y = lines_text(s.subrange(a, b - 1), off);
        assert(lines_text(s.subrange(a, b), off) == y + line_of(s[b - 1], off) + seq!['\n']);
        assert(x + (y + line_of(s[b - 1], off) + seq!['\n']) =~= (x + y) + line_of(s[b - 1], off) + seq!['\n']);
    }
}

/// Whether an entry falls inside the window that ends at `end_time`.
pub open spec fn within(l: Log, end_time: Option<i64>) -> bool {
    match end_time {
        None => true,
        Some(e) => l.time <= e,
    }
}

/// The entries that a window ending at `end_time` sees, oldest first.
pub open spec fn visible(s: Seq<Log>, end_time: Option<i64>) -> Seq<Log>
    decreases s.len(),
{
    if s.len() == 0 {
        Seq::empty()
    } else if within(s.last(), end_time) {
        visible(s.drop_last(), end_time).push(s.last())
    } else {
        visible(s.drop_last(), end_time)
    }
}

pub open spec fn reversed<A>(s: Seq<A>) -> Seq<A> {
    Seq::new(s.len(), |i: int| s[s.len() - 1 - i])
}

/// Page `page` of `lines` entries of `f`, newest first.
pub open spec fn page_of(f: Seq<Log>, page: nat, lines: nat) -> Seq<Log> {
    let skip = page * lines;
    if skip >= f.len() {
        Seq::empty()
    } else {
        let n = if lines < f.len() - skip { lines as int } else { f.len() - skip };
        Seq::new(n as nat, |i: int| f[f.len() - 1 - skip - i])
    }
}

/// Whether page `page` is the last one of `f`.
pub open spec fn page_is_end(f: Seq<Log>, page: nat, lines: nat) -> bool {
    f.len() <= (page + 1) * lines
}

/// The entries that one window request returns.
pub open spec fn window_logs(
    s: Seq<Log>,
    page: nat,
    lines: nat,
    end_time: Option<i64>,
    rev: Option<bool>,
) -> Seq<Log> {
    let p = page_of(visible(s, end_time), page, lines);
    if rev == Some(true) {
        reversed(p)
    } else {
        p
    }
}

/// Asking for a window oldest-first gives the same entries as asking for it
/// newest-first, in the reverse order.
pub proof fn lemma_reverse_window(s: Seq<Log>, page: nat, lines: nat, end_time: Option<i64>)
    ensures
        window_logs(s, page, lines, end_time, Some(true)) == reversed(
            window_logs(s, page, lines, end_time, Some(false)),
        ),
        forall|l: Log| #[trigger] window_logs(s, page, lines, end_time, Some(true)).contains(l) <==>
            window_logs(s, page, lines, end_time, Some(false)).contains(l),
{
    let a = window_logs(s, page, lines, end_time, Some(true));
    let b = window_logs(s, page, lines, end_time, Some(false));
    assert forall|l: Log| #[trigger] a.contains(l) <==> b.contains(l) by {
        if a.contains(l) {
            let k = choose|k: int| 0 <= k < a.len() && a[k] == l;
            assert(b[b.len() - 1 - k] == l);
        }
        if b.contains(l) {
            let k = choose|k: int| 0 <= k < b.len() && b[k] == l;
            assert(a[a.len() - 1 - k] == l);
        }
    }
}

/// A page that starts past the last visible entry is empty, and is the end.
pub proof fn lemma_page_past_end(s: Seq<Log>, page: nat, lines: nat, end_time: Option<i64>, rev: Option<bool>)
    requires
        page * lines >= visible(s, end_time).len(),
    ensures
        window_logs(s, page, lines, end_time, rev).len() == 0,
        page_is_end(visible(s, end_time), page, lines),
{
    assert((page + 1) * lines == page * lines + lines) by (nonlinear_arith);
}

/// One page of the log, as the control surface serves it.
pub struct LogPage {
    pub logs: Vec<Log>,
    /// Whether no older entries are left.
    pub end: bool,
}

impl LogStore {
    pub open spec fn wf(&self) -> bool {
        self.log_save_index <= self.logs@.len()
    }

    pub fn new() -> (r: LogStore)
        ensures
            r.wf(),
            r.logs@.len() == 0,
            r.log_save_index == 0,
            r.last_log_save == 0,
    {
        LogStore { logs: Vec::new(), log_save_index: 0, last_log_save: 0 }
    }

    /// Appends an entry made at `now`.
    pub fn log(&mut self, log_type: LogType, text: String, now: i64)
        requires
            old(self).wf(),
        ensures
            final(self).wf(),
            final(self).logs@ == old(self).logs@.push(Log { log_type, time: now, data: text }),
            final(self).log_save_index == old(self).log_save_index,
            final(self).last_log_save == old(self).last_log_save,
    {
        self.logs.push(Log { log_type, time: now, data: text });
    }

    /// A flush of the log: when one is due (forced or a minute old, and
    /// something unwritten), the unwritten entries as lines, times at offset
    /// `off` from UTC, and how many entries are written once it is. Nothing
    /// is marked written until `mark_saved`.
    pub fn log_tick(&self, force: bool, now: u64, off: i32) -> (r: Option<LogFlush>)
        ensures
            r is Some == tick_due(*self, force, now),
            r is Some ==> {
                &&& r->0.text@ == lines_text(
                    self.logs@.subrange(self.log_save_index as int, self.logs@.len() as int),
                    off as int,
                )
                &&& r->0.upto == self.logs@.len()
            },
    {
        let elapsed = now.saturating_sub(self.last_log_save);
        if (!force && elapsed < SAVE_INTERVAL) || self.log_save_index >= self.logs.len() {
            return None;
        }
        let start = self.log_save_index;
        let mut out = String::new();
        let mut i = start;
        while i < self.logs.len()
            invariant
                start <= i <= self.logs@.len(),
                out@ == lines_text(self.logs@.subrange(start as int, i as int), off as int),
            decreases self.logs@.len() - i,
        {
            push_line(&mut out, &self.logs[i], off);
            proof {
                let s = self.logs@.subrange(start as int, i as int + 1);
                assert(s.drop_last() =~= self.logs@.subrange(start as int, i as int));
            }
            i = i + 1;
        }
        Some(LogFlush { text: out, upto: self.logs.len() })
    }

    /// Marks the entries below `upto` written, at `now`: to be called once
    /// the text of a flush is on disk.
    pub fn mark_saved(&mut self, upto: usize, now: u64)
        requires
            old(self).wf(),
            old(self).log_save_index <= upto <= old(self).logs@.len(),
        ensures
            final(self).wf(),
            final(self).logs@ == old(self).logs@,
            final(self).log_save_index == upto,
            final(self).last_log_save == now,
    {
        self.log_save_index = upto;
        self.last_log_save = now;
    }

    /// The first `n` entries, oldest first.
    pub fn head(&self, n: usize) -> (r: Vec<Log>)
        ensures
            r@ == self.logs@.take(if n < self.logs@.len() { n as int } else { self.logs@.len() as int }),
    {
        let mut r: Vec<Log> = Vec::new();
        let mut i: usize = 0;
        while i < n && i < self.logs.len()
            invariant
                i <= self.logs@.len(),
                i <= n,
                r@ == self.logs@.take(i as int),
            decreases self.logs@.len() - i,
        {
            r.push(self.logs[i].copy());
            assert(self.logs@.take(i as int + 1) =~= self.logs@.take(i as int).push(self.logs@[i as int]));
            i = i + 1;
        }
        r
    }

    /// The window of entries that a log request asks for: the entries no
    /// later than `end_time`, newest first, past `page * lines` of them, at
    /// most `lines`; oldest first where `rev` is `Some(true)`.
    pub fn window(&self, page: usize, lines: usize, end_time: Option<i64>, rev: Option<bool>) -> (r: LogPage)
        ensures
            r.logs@ == window_logs(self.logs@, page as nat, lines as nat, end_time, rev),
            r.end == page_is_end(visible(self.logs@, end_time), page as nat, lines as nat),
    {
        let mut f: Vec<Log> = Vec::new();
        let mut i: usize = 0;
        while i < self.logs.len()
            invariant
                i <= self.logs@.len(),
                f@ == visible(self.logs@.take(i as int), end_time),
            decreases self.logs@.len() - i,
        {
            let l = &self.logs[i];
            let keep = match end_time {
                None => true,
                Some(e) => l.time <= e,
            };
            if keep {
                f.push(l.copy());
            }
            assert(self.logs@.take(i as int + 1).drop_last() =~= self.logs@.take(i as int));
            i = i + 1;
        }
        assert(self.logs@.take(self.logs@.len() as int) =~= self.logs@);
        let ghost fs = f@;
        let len = f.len() as u128;
        proof {
            let a = page as nat;
            let b = lines as nat;
            assert(a * b <= 0xffff_ffff_ffff_ffffnat * 0xffff_ffff_ffff_ffffnat) by (nonlinear_arith)
                requires a <= 0xffff_ffff_ffff_ffffnat, b <= 0xffff_ffff_ffff_ffffnat;
        }
        let skip: u128 = page as u128 * lines as u128;
        let next: u128 = skip + lines as u128;
        proof {
            assert(page as nat * lines as nat == skip as nat);
            assert((page as nat + 1) * lines as nat == next as nat) by (nonlinear_arith)
                requires skip as nat == page as nat * lines as nat, next == skip + lines;
        }
        let end = len <= next;
        let mut out: Vec<Log> = Vec::new();
        if skip < len {
            let avail = len - skip;
            let n = if (lines as u128) < avail { lines as u128 } else { avail };
            let mut k: u128 = 0;
            while k < n
                invariant
                    fs == f@,
                    skip < len == f@.len(),
                    n <= len - skip,
                    k <= n,
                    out@ == Seq::new(k as nat, |j: int| fs[fs.len() - 1 - skip - j]),
                decreases n - k,
            {
                let off = (skip + k) as usize;
                let idx = f.len() - 1 - off;
                let e = f[idx].copy();
                let ghost before = out@;
                out.push(e);
                assert(e == fs[fs.len() - 1 - skip - k]);
                assert(out@ == before.push(e));
                assert(out@ =~= Seq::new((k + 1) as nat, |j: int| fs[fs.len() - 1 - skip - j]));
                k = k + 1;
            }
        }
        assert(out@ =~= page_of(fs, page as nat, lines as nat));
        if let Some(true) = rev {
            let mut back: Vec<Log> = Vec::new();
            let mut k: usize = out.len();
            while k > 0
                invariant
                    k <= out@.len(),
                    back@ =~= Seq::new((out@.len() - k) as nat, |j: int| out@[out@.len() - 1 - j]),
                decreases k,
            {
                k = k - 1;
                back.push(out[k].copy());
            }
            assert(back@ =~= reversed(out@));
            return LogPage { logs: back, end };
        }
        LogPage { logs: out, end }
    }
}

/// The names of the day, `YYYY-MM-DD`, in UTC, of a timestamp; none where the
/// timestamp is out of the calendar's range.
pub uninterp spec fn utc_day(ts: i64) -> Option<Seq<char>>;

/// Relies on chrono's `DateTime::from_timestamp` and `format("%Y-%m-%d")`:
/// the UTC date of the timestamp, or none where it is out of range.
#[verifier::external_body]
fn utc_date_text(ts: i64) -> (r: Option<String>)
    ensures
        r is Some ==> utc_day(ts) == Some(r->0@),
        r is None ==> utc_day(ts) is None,
{
    match chrono::DateTime::from_timestamp(ts, 0) {
        Some(d) => Some(d.format("%Y-%m-%d").to_string()),
        None => None,
    }
}

/// The name of the day's log file: the UTC date of `now` and `.log`.
pub fn log_file_name(now: i64) -> (r: Option<String>)
    ensures
        match r {
            Some(s) => utc_day(now) is Some && s@ == utc_day(now)->0 + ".log"@,
            None => utc_day(now) is None,
        },
{
    match utc_date_text(now) {
        Some(d) => {
            let mut s = d;
            push_str(&mut s, ".log");
            Some(s)
        },
        None => None,
    }
}

} // verus!
