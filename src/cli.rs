//! The logic of the command-line client: how it words and colours what the
//! daemon reports, which command a command line names, and which token it
//! uses for a host.
use vstd::prelude::*;
use crate::text::{dec, push_decimal, push_str};

verus! {

/// The colours the client uses.
#[derive(Debug, Clone, Copy, PartialEq, Eq, Structural)]
pub enum Paint {
    Green,
    Yellow,
    Red,
}

/// The ANSI foreground code of a colour.
pub open spec fn paint_code(p: Paint) -> Seq<char> {
    match p {
        Paint::Green => "32"@,
        Paint::Yellow => "33"@,
        Paint::Red => "31"@,
    }
}

/// Whether `s` holds the ANSI reset sequence.
pub open spec fn has_reset(s: Seq<char>) -> bool {
    exists|i: int| 0 <= i && i + 4 <= s.len() && #[trigger] s.subrange(i, i + 4) == seq!['\x1b', '[', '0', 'm']
}

/// `s` in colour `p`: either as it is (where colours are switched off) or
/// wrapped in the colour's escape sequence and a reset.
pub open spec fn painted(s: Seq<char>, p: Paint, r: Seq<char>) -> bool {
    r == s || (!has_reset(s) ==> r == seq!['\x1b', '['] + paint_code(p) + seq!['m'] + s + seq!['\x1b', '[', '0', 'm'])
}

/// Relies on colored's `Colorize` and the `Display` of `ColoredString`: the
/// text unchanged where colouring is off, else the colour's escape sequence,
/// the text (inner resets escaped) and a reset.
#[verifier::external_body]
fn paint(s: &str, p: Paint) -> (r: String)
    ensures
        painted(s@, p, r@),
{
    let c = match p {
        Paint::Green => colored::Color::Green,
        Paint::Yellow => colored::Color::Yellow,
        Paint::Red => colored::Color::Red,
    };
    colored::Colorize::color(s, c).to_string()
}

/// `a` where `case` holds, else `b`.
pub fn t<T>(case: bool, a: T, b: T) -> (r: T)
    ensures
        r == (if case { a } else { b }),
{
    if case {
        return a;
    }
    b
}

/// `a(value)` where `case` holds, else `b(value)`.
pub fn tc<T, E, A: Fn(T) -> E, B: Fn(T) -> E>(case: bool, value: T, a: A, b: B) -> (r: E)
    requires
        case ==> a.requires((value,)),
        !case ==> b.requires((value,)),
    ensures
        case ==> a.ensures((value,), r),
        !case ==> b.ensures((value,), r),
{
    if case {
        return a(value);
    }
    b(value)
}

/// `x / p`, rounded half away from zero.
pub open spec fn rounded(x: nat, p: nat) -> nat {
    (2 * x + p) / (2 * p)
}

/// The unit an elapsed time is told in, and the seconds in one of it: the
/// largest unit of which there are at least one (a month is thirty days, a
/// year twelve months).
pub open spec fn elapsed_unit(secs: nat) -> (nat, Seq<char>) {
    if secs < 60 {
        (1, "second"@)
    } else if secs < 3600 {
        (60, "minute"@)
    } else if secs < 86400 {
        (3600, "hour"@)
    } else if secs < 2592000 {
        (86400, "day"@)
    } else if secs < 31104000 {
        (2592000, "month"@)
    } else {
        (31104000, "year"@)
    }
}

/// An elapsed time in words: `1 minute`, `5 hours`.
pub open spec fn elapsed_text(secs: nat) -> Seq<char> {
    let (p, name) = elapsed_unit(secs);
    let n = rounded(secs, p);
    dec(n) + " "@ + name + (if n == 1 { ""@ } else { "s"@ })
}

/// An elapsed number of seconds in words, in the largest unit that fits.
pub fn format_elapsed(secs: u64) -> (r: String)
    ensures
        r@ == elapsed_text(secs as nat),
{
    let (p, name): (u64, &str) = if secs < 60 {
        (1, "second")
    } else if secs < 3600 {
        (60, "minute")
    } else if secs < 86400 {
        (3600, "hour")
    } else if secs < 2592000 {
        (86400, "day")
    } else if secs < 31104000 {
        (2592000, "month")
    } else {
        (31104000, "year")
    };
    let n128: u128 = (2 * (secs as u128) + p as u128) / (2 * p as u128);
    proof {
        assert(n128 <= secs as u128 + 1) by (nonlinear_arith)
            requires n128 == (2 * (secs as u128) + p as u128) / (2 * p as u128), p >= 1;
    }
    let n: u64 = if n128 <= u64::MAX as u128 { n128 as u64 } else { u64::MAX };
    proof {
        if secs == u64::MAX {
            assert(n128 == (2 * (secs as nat) + 31104000) / 62208000);
        }
        assert(n128 <= u64::MAX as u128) by (nonlinear_arith)
            requires n128 == (2 * (secs as u128) + p as u128) / (2 * p as u128), p >= 1, p <= secs || secs < 60,
                secs <= u64::MAX;
    }
    let mut r = String::new();
    push_decimal(&mut r, n);
    push_str(&mut r, " ");
    push_str(&mut r, name);
    if n != 1 {
        push_str(&mut r, "s");
    }
    proof {
        reveal_strlit("second");
        reveal_strlit("minute");
        reveal_strlit("hour");
        reveal_strlit("day");
        reveal_strlit("month");
        reveal_strlit("year");
        reveal_strlit(" ");
        reveal_strlit("s");
        reveal_strlit("");
        assert(r@ =~= elapsed_text(secs as nat));
    }
    r
}

} // verus!

verus! {

/// Where the first line break of `s` is; its length where it has none.
pub open spec fn first_break(s: Seq<char>) -> nat
    decreases s.len(),
{
    if s.len() == 0 {
        0
    } else if s[0] == '\n' {
        0
    } else {
        1 + first_break(s.drop_first())
    }
}

/// A line without the carriage return that ends it, if one does.
pub open spec fn strip_cr(l: Seq<char>) -> Seq<char> {
    if l.len() > 0 && l.last() == '\r' { l.drop_last() } else { l }
}

/// The lines of a text: split at each `\n`, the `\r` of a `\r\n` dropped,
/// and no empty line after a final break.
pub open spec fn lines_of(s: Seq<char>) -> Seq<Seq<char>>
    decreases s.len(),
{
    if s.len() == 0 {
        Seq::empty()
    } else if first_break(s) >= s.len() {
        seq![s]
    } else {
        seq![strip_cr(s.take(first_break(s) as int))] + lines_of(s.skip(first_break(s) as int + 1))
    }
}

/// Relies on std's `str::lines`: lines end at `\n` or `\r\n`, the final
/// line ending is optional, and a bare `\r` not followed by `\n` stays.
#[verifier::external_body]
fn text_lines(s: &str) -> (r: Vec<String>)
    ensures
        r@.map_values(|x: String| x@) == lines_of(s@),
{
    s.lines().map(|x| x.to_string()).collect()
}

/// Lines joined with line breaks between them.
pub open spec fn joined(ls: Seq<Seq<char>>) -> Seq<char>
    decreases ls.len(),
{
    if ls.len() == 0 {
        Seq::empty()
    } else if ls.len() == 1 {
        ls[0]
    } else {
        joined(ls.drop_last()) + seq!['\n'] + ls.last()
    }
}

/// How many lines of output the client shows.
pub const SHOWN_LINES: usize = 10;

/// The last lines of an output, and whether they are all of it (and some).
pub open spec fn tail_of(s: Seq<char>) -> (bool, Seq<char>) {
    let ls = lines_of(s);
    let k: int = if ls.len() < SHOWN_LINES { ls.len() as int } else { SHOWN_LINES as int };
    (ls.len() <= SHOWN_LINES && ls.len() > 0, joined(ls.subrange(ls.len() - k, ls.len() as int)))
}

/// The last ten lines of an output, joined; and whether the output had
/// between one and ten lines.
pub fn take_lines(inp: String) -> (r: (bool, String))
    ensures
        r.0 == tail_of(inp@).0,
        r.1@ == tail_of(inp@).1,
        inp@.len() == 0 ==> !r.0 && r.1@.len() == 0,
{
    let lines = text_lines(inp.as_str());
    let ghost ls = lines_of(inp@);
    proof {
        assert(lines@.map_values(|x: String| x@).len() == lines@.len());
    }
    let n = lines.len();
    let k = if n < SHOWN_LINES { n } else { SHOWN_LINES };
    let start = n - k;
    let mut out = String::new();
    let mut i = start;
    while i < n
        invariant
            n == lines@.len() == ls.len(),
            start <= i <= n,
            lines@.map_values(|x: String| x@) == ls,
            out@ == joined(ls.subrange(start as int, i as int)),
        decreases n - i,
    {
        if i > start {
            crate::text::push_char(&mut out, '\n');
        }
        push_str(&mut out, lines[i].as_str());
        proof {
            assert(lines@.map_values(|x: String| x@)[i as int] == lines@[i as int]@);
            let sub = ls.subrange(start as int, i as int + 1);
            assert(sub.drop_last() =~= ls.subrange(start as int, i as int));
            if i == start {
                assert(sub.len() == 1);
            }
        }
        i = i + 1;
    }
    (n <= SHOWN_LINES && n > 0, out)
}

/// An app's state, as the client's info command reads it.
pub enum Status {
    Running,
    Stopped,
    Crashed(Option<i32>),
}

impl Status {
    pub open spec fn paint_of(&self) -> Paint {
        match self {
            Status::Running => Paint::Green,
            Status::Stopped => Paint::Yellow,
            Status::Crashed(_) => Paint::Red,
        }
    }

    /// A dot in the colour of the state.
    pub fn dot(&self) -> (r: String)
        ensures
            painted("●"@, self.paint_of(), r@),
    {
        paint("●", match self {
            Status::Running => Paint::Green,
            Status::Stopped => Paint::Yellow,
            Status::Crashed(_) => Paint::Red,
        })
    }

    /// The state in words, with the exit code of a crash.
    pub fn text(&self) -> (r: String)
        ensures
            painted(status_words(*self), self.paint_of(), r@),
    {
        proof {
            reveal_strlit("Running");
            reveal_strlit("Stopped");
            reveal_strlit("Crashed");
            reveal_strlit("Crashed (");
            reveal_strlit(" (");
            reveal_strlit(")");
        }
        match self {
            Status::Running => paint("Running", Paint::Green),
            Status::Stopped => paint("Stopped", Paint::Yellow),
            Status::Crashed(code) => {
                let mut s = String::from_str("Crashed");
                match code {
                    Some(c) => {
                        push_str(&mut s, " (");
                        push_signed(&mut s, *c);
                        push_str(&mut s, ")");
                    },
                    None => {},
                }
                assert(s@ =~= status_words(*self));
                paint(s.as_str(), Paint::Red)
            },
        }
    }
}

/// A signed number in decimal.
pub open spec fn signed_dec(n: int) -> Seq<char> {
    if n < 0 { seq!['-'] + dec((-n) as nat) } else { dec(n as nat) }
}

fn push_signed(out: &mut String, n: i32)
    ensures
        final(out)@ == old(out)@ + signed_dec(n as int),
{
    if n < 0 {
        crate::text::push_char(out, '-');
        let m: u64 = (-(n as i64)) as u64;
        push_decimal(out, m);
        assert(final(out)@ =~= old(out)@ + signed_dec(n as int));
    } else {
        push_decimal(out, n as u64);
    }
}

pub open spec fn status_words(s: Status) -> Seq<char> {
    match s {
        Status::Running => "Running"@,
        Status::Stopped => "Stopped"@,
        Status::Crashed(None) => "Crashed"@,
        Status::Crashed(Some(c)) => "Crashed ("@ + signed_dec(c as int) + ")"@,
    }
}

/// An app's state, as the client's status command reads it.
#[derive(Debug, Clone, Copy, PartialEq, Eq, Structural)]
pub enum ProjectState {
    Running,
    Stopped,
    /// Whether the exit was a success, and the exit code.
    Crashed(bool, Option<i32>),
}

pub open spec fn state_id(s: ProjectState) -> usize {
    match s {
        ProjectState::Running => 0,
        ProjectState::Stopped => 1,
        ProjectState::Crashed(_, _) => 2,
    }
}

pub open spec fn state_paint(s: ProjectState) -> Paint {
    match s {
        ProjectState::Running => Paint::Green,
        ProjectState::Stopped => Paint::Yellow,
        ProjectState::Crashed(_, _) => Paint::Red,
    }
}

impl ProjectState {
    /// The kind of state, whatever its exit details.
    pub fn id(&self) -> (r: usize)
        ensures
            r == state_id(*self),
    {
        match self {
            ProjectState::Running => 0,
            ProjectState::Stopped => 1,
            ProjectState::Crashed(_, _) => 2,
        }
    }

    /// `inp` in the colour of the state.
    pub fn colorize(&self, inp: &str) -> (r: String)
        ensures
            painted(inp@, state_paint(*self), r@),
    {
        match self {
            ProjectState::Running => paint(inp, Paint::Green),
            ProjectState::Stopped => paint(inp, Paint::Yellow),
            ProjectState::Crashed(_, _) => paint(inp, Paint::Red),
        }
    }
}

/// How many of `apps` are in the same kind of state as `state`.
pub open spec fn count_like(apps: Seq<ProjectState>, state: ProjectState) -> nat
    decreases apps.len(),
{
    if apps.len() == 0 {
        0
    } else {
        count_like(apps.drop_last(), state) + if state_id(apps.last()) == state_id(state) { 1nat } else { 0 }
    }
}

/// How many apps are in the same kind of state as `state`.
pub fn app_count(apps: &Vec<ProjectState>, state: ProjectState) -> (r: usize)
    ensures
        r == count_like(apps@, state),
{
    let id = state.id();
    let mut n: usize = 0;
    let mut i: usize = 0;
    while i < apps.len()
        invariant
            i <= apps@.len(),
            n == count_like(apps@.take(i as int), state),
            n <= i,
            id == state_id(state),
        decreases apps@.len() - i,
    {
        assert(apps@.take(i as int + 1).drop_last() =~= apps@.take(i as int));
        if apps[i].id() == id {
            n = n + 1;
        }
        i = i + 1;
    }
    assert(apps@.take(apps@.len() as int) =~= apps@);
    n
}

/// The health of a daemon, from how many of its apps crashed.
#[derive(Debug, Clone, Copy, PartialEq, Eq, Structural)]
pub enum SystemStatus {
    Good,
    Degraded,
    Yikes,
}

pub open spec fn health_of(crashed: nat) -> SystemStatus {
    if crashed == 0 {
        SystemStatus::Good
    } else if crashed == 1 {
        SystemStatus::Degraded
    } else {
        SystemStatus::Yikes
    }
}

pub open spec fn health_paint(s: SystemStatus) -> Paint {
    match s {
        SystemStatus::Good => Paint::Green,
        SystemStatus::Degraded => Paint::Yellow,
        SystemStatus::Yikes => Paint::Red,
    }
}

pub open spec fn health_words(s: SystemStatus) -> Seq<char> {
    match s {
        SystemStatus::Good => "good"@,
        SystemStatus::Degraded => "degraded"@,
        SystemStatus::Yikes => "yikes"@,
    }
}

impl SystemStatus {
    /// Good with no crashed app, degraded with one, yikes with more.
    pub fn from_apps(apps: &Vec<ProjectState>) -> (r: SystemStatus)
        ensures
            r == health_of(count_like(apps@, ProjectState::Crashed(false, None))),
    {
        match app_count(apps, ProjectState::Crashed(false, None)) {
            0 => SystemStatus::Good,
            1 => SystemStatus::Degraded,
            _ => SystemStatus::Yikes,
        }
    }

    /// A dot in the colour of the health.
    pub fn dot(&self) -> (r: String)
        ensures
            painted("●"@, health_paint(*self), r@),
    {
        match self {
            SystemStatus::Good => paint("●", Paint::Green),
            SystemStatus::Degraded => paint("●", Paint::Yellow),
            SystemStatus::Yikes => paint("●", Paint::Red),
        }
    }

    /// The health in words, in its colour.
    pub fn text(&self) -> (r: String)
        ensures
            painted(health_words(*self), health_paint(*self), r@),
    {
        proof {
            reveal_strlit("good");
            reveal_strlit("degraded");
            reveal_strlit("yikes");
        }
        match self {
            SystemStatus::Good => paint("good", Paint::Green),
            SystemStatus::Degraded => paint("degraded", Paint::Yellow),
            SystemStatus::Yikes => paint("yikes", Paint::Red),
        }
    }
}

/// The kind of a log entry, as the client reads it.
#[derive(Debug, Clone, Copy, PartialEq, Eq, Structural)]
pub enum LogType {
    Error,
    Info,
}

impl LogType {
    /// An entry's line: plain for information, red for an error.
    pub fn colorize(&self, msg: &str) -> (r: String)
        ensures
            *self == LogType::Info ==> r@ == msg@,
            *self == LogType::Error ==> painted(msg@, Paint::Red, r@),
    {
        match self {
            LogType::Info => String::from_str(msg),
            LogType::Error => paint(msg, Paint::Red),
        }
    }
}

} // verus!

verus! {

/// The commands of the client.
#[derive(Debug, Clone, Copy, PartialEq, Eq, Structural)]
pub enum CommandType {
    Version,
    Status,
    System,
    Logs,
    AppInfo,
    AppStart,
    AppStop,
}

pub open spec fn ascii_lower(c: char) -> char {
    if 'A' <= c <= 'Z' { (((c as u32) + 32) as u8) as char } else { c }
}

/// Whether `a`, in ASCII lower case, is `b`.
pub open spec fn lower_eq(a: Seq<char>, b: Seq<char>) -> bool {
    a.len() == b.len() && forall|i: int| 0 <= i < a.len() ==> ascii_lower(#[trigger] a[i]) == b[i]
}

fn lower_char(c: char) -> (r: char)
    ensures
        r == ascii_lower(c),
{
    if 'A' <= c && c <= 'Z' {
        let u = (c as u32) + 32;
        (u as u8) as char
    } else {
        c
    }
}

/// Whether `a` is `b` once its ASCII letters are lower-cased.
pub fn eq_lower(a: &str, b: &str) -> (r: bool)
    ensures
        r == lower_eq(a@, b@),
{
    let n = a.unicode_len();
    if n != b.unicode_len() {
        return false;
    }
    let mut i: usize = 0;
    while i < n
        invariant
            n == a@.len() == b@.len(),
            i <= n,
            forall|j: int| 0 <= j < i ==> ascii_lower(#[trigger] a@[j]) == b@[j],
        decreases n - i,
    {
        if lower_char(a.get_char(i)) != b.get_char(i) {
            return false;
        }
        i = i + 1;
    }
    true
}

/// The command that a sub-command (and, under `app`, its own sub-command)
/// names, whatever the case of their letters; none for a name the client
/// does not have.
pub fn command_type(sub: &str, sub_sub: &str) -> (r: Option<CommandType>)
    ensures
        lower_eq(sub@, "app"@) ==> r == (if lower_eq(sub_sub@, "info"@) {
            Some(CommandType::AppInfo)
        } else if lower_eq(sub_sub@, "start"@) {
            Some(CommandType::AppStart)
        } else if lower_eq(sub_sub@, "stop"@) {
            Some(CommandType::AppStop)
        } else {
            None
        }),
        !lower_eq(sub@, "app"@) ==> r == (if lower_eq(sub@, "version"@) {
            Some(CommandType::Version)
        } else if lower_eq(sub@, "status"@) {
            Some(CommandType::Status)
        } else if lower_eq(sub@, "system"@) {
            Some(CommandType::System)
        } else if lower_eq(sub@, "logs"@) {
            Some(CommandType::Logs)
        } else {
            None
        }),
{
    if eq_lower(sub, "app") {
        if eq_lower(sub_sub, "info") {
            Some(CommandType::AppInfo)
        } else if eq_lower(sub_sub, "start") {
            Some(CommandType::AppStart)
        } else if eq_lower(sub_sub, "stop") {
            Some(CommandType::AppStop)
        } else {
            None
        }
    } else if eq_lower(sub, "version") {
        Some(CommandType::Version)
    } else if eq_lower(sub, "status") {
        Some(CommandType::Status)
    } else if eq_lower(sub, "system") {
        Some(CommandType::System)
    } else if eq_lower(sub, "logs") {
        Some(CommandType::Logs)
    } else {
        None
    }
}

/// The cached tokens of hosts other than `host`, in order.
pub open spec fn other_hosts(c: Seq<(String, String)>, host: Seq<char>) -> Seq<(String, String)>
    decreases c.len(),
{
    if c.len() == 0 {
        Seq::empty()
    } else if c.last().0@ != host {
        other_hosts(c.drop_last(), host).push(c.last())
    } else {
        other_hosts(c.drop_last(), host)
    }
}

/// The token cache once `token` is remembered for `host`: any earlier entry
/// of the host is dropped and the new one goes last.
pub fn remember_token(cache: Vec<(String, String)>, host: &str, token: &str) -> (r: Vec<(String, String)>)
    ensures
        r@.len() > 0,
        r@.drop_last() == other_hosts(cache@, host@),
        r@.last().0@ == host@,
        r@.last().1@ == token@,
{
    let ghost c = cache@;
    let mut rest = cache;
    let mut back: Vec<(String, String)> = Vec::new();
    while rest.len() > 0
        invariant
            rest@ == c.take(rest@.len() as int),
            back@.len() == c.len() - rest@.len(),
            forall|j: int| 0 <= j < back@.len() ==> back@[j] == c[c.len() - 1 - j],
        decreases rest@.len(),
    {
        let e = rest.pop().unwrap();
        proof {
            assert(rest@ =~= c.take(rest@.len() as int));
        }
        back.push(e);
    }
    let mut kept: Vec<(String, String)> = Vec::new();
    while back.len() > 0
        invariant
            back@.len() <= c.len(),
            forall|j: int| 0 <= j < back@.len() ==> back@[j] == c[c.len() - 1 - j],
            kept@ == other_hosts(c.take(c.len() - back@.len()), host@),
        decreases back@.len(),
    {
        let ghost i = c.len() - back@.len();
        let e = back.pop().unwrap();
        assert(e == c[i]);
        assert(c.take(i + 1).drop_last() =~= c.take(i));
        if !crate::text::str_eq(e.0.as_str(), host) {
            kept.push(e);
        }
    }
    assert(c.take(c.len() as int) =~= c);
    let ghost before = kept@;
    kept.push((String::from_str(host), String::from_str(token)));
    assert(kept@.drop_last() =~= before);
    kept
}

/// Whether to cache a token: one given on the command line, for which the
/// daemon's ping answered that it is the global token.
pub fn should_cache_token(given: bool, ping_class: Option<&str>) -> (r: bool)
    ensures
        r == (given && (ping_class matches Some(c) && c@ == "global"@)),
{
    given && match ping_class {
        Some(c) => crate::text::str_eq(c, "global"),
        None => false,
    }
}

/// The first cached token of `host`.
pub open spec fn cached_token(c: Seq<(String, String)>, host: Seq<char>, i: int) -> bool {
    &&& 0 <= i < c.len()
    &&& c[i].0@ == host
    &&& forall|j: int| 0 <= j < i ==> (#[trigger] c[j]).0@ != host
}

/// The token to use for `host`, and whether it was given on the command line
/// (and so may be worth caching): the given one, else the first cached for
/// the host, else the one of the local daemon's configuration, else none.
pub fn pick_token(
    flag: Option<String>,
    cache: &Vec<(String, String)>,
    host: &str,
    config_token: Option<String>,
) -> (r: Option<(String, bool)>)
    ensures
        flag is Some ==> r == Some((flag->0, true)),
        flag is None && (exists|i: int| cached_token(cache@, host@, i)) ==> exists|i: int|
            #[trigger] cached_token(cache@, host@, i) && r == Some((cache@[i].1, false)),
        flag is None && !(exists|i: int| cached_token(cache@, host@, i)) ==> r == match config_token {
            Some(t) => Some((t, false)),
            None => None,
        },
{
    if let Some(f) = flag {
        return Some((f, true));
    }
    let mut i: usize = 0;
    while i < cache.len()
        invariant
            i <= cache@.len(),
            flag is None,
            forall|j: int| 0 <= j < i ==> (#[trigger] cache@[j]).0@ != host@,
        decreases cache@.len() - i,
    {
        if crate::text::str_eq(cache[i].0.as_str(), host) {
            assert(cached_token(cache@, host@, i as int));
            return Some((cache[i].1.clone(), false));
        }
        i = i + 1;
    }
    proof {
        assert forall|k: int| !cached_token(cache@, host@, k) by {
            if 0 <= k < cache@.len() {
                assert(cache@[k].0@ != host@);
            }
        }
    }
    match config_token {
        Some(t) => Some((t, false)),
        None => None,
    }
}

} // verus!

verus! {

#[verifier::external_type_specification]
#[verifier::external_body]
pub struct ExParseError(url::ParseError);

/// What url reads in a URL: the Unicode serialisation of its origin, its
/// explicit port, and its path; none where it does not parse.
pub uninterp spec fn url_parts(s: Seq<char>) -> Option<(Seq<char>, Option<u16>, Seq<char>)>;

/// Relies on url's `Url::parse`, and on the parsed URL's
/// `origin().unicode_serialization()`, `port()` and `path()`.
#[verifier::external_body]
fn parse_url(s: &str) -> (r: Result<(String, Option<u16>, String), url::ParseError>)
    ensures
        r is Ok <==> url_parts(s@) is Some,
        r is Ok ==> url_parts(s@) == Some((r->Ok_0.0@, r->Ok_0.1, r->Ok_0.2@)),
{
    match url::Url::parse(s) {
        Ok(u) => Ok((u.origin().unicode_serialization(), u.port(), u.path().to_string())),
        Err(e) => Err(e),
    }
}

/// The daemon's port where a host names none.
pub const DEFAULT_PORT: u16 = 3401;

/// A daemon's address as the client uses it: the URL's origin, the default
/// port 3401 where the URL names none (a named port is already part of the
/// origin), and its path.
pub fn parse_host(inp: &str) -> (r: Result<String, url::ParseError>)
    ensures
        r is Ok <==> url_parts(inp@) is Some,
        r is Ok ==> {
            let (origin, port, path) = url_parts(inp@)->0;
            r->Ok_0@ == origin + (match port {
                Some(_) => Seq::empty(),
                None => seq![':'] + dec(DEFAULT_PORT as nat),
            }) + path
        },
{
    match parse_url(inp) {
        Ok((origin, port, path)) => {
            let mut r = origin;
            let ghost o = r@;
            match port {
                Some(_) => {},
                None => {
                    crate::text::push_char(&mut r, ':');
                    push_decimal(&mut r, DEFAULT_PORT as u64);
                },
            }
            push_str(&mut r, path.as_str());
            proof {
                let mid: Seq<char> = match port {
                    Some(_) => Seq::empty(),
                    None => seq![':'] + dec(DEFAULT_PORT as nat),
                };
                assert(r@ =~= o + mid + path@);
            }
            Ok(r)
        },
        Err(e) => Err(e),
    }
}

} // verus!
