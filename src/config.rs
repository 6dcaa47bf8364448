//! Configuration of the daemon and of each supervised app.
use vstd::prelude::*;
use crate::text::push_char;

verus! {

/// An app's configuration, as read from its `config.toml`.
pub struct ProjectConfig {
    pub name: String,
    /// The token that grants access to this app alone.
    pub api_token: String,
    pub run: ProjectRunConfig,
    pub git: ProjectGitConfig,
}

/// How an app's executable is run.
pub struct ProjectRunConfig {
    pub path: String,
    /// The executable, relative to the app's directory.
    pub command: String,
    pub arguments: Vec<String>,
    /// Variables added to the child's environment, as (name, value) pairs.
    pub environment_vars: Vec<(String, String)>,
}

/// Where an app's source comes from, and the credentials to fetch it.
pub struct ProjectGitConfig {
    pub repo: Option<String>,
    pub username: Option<String>,
    pub token: Option<String>,
    pub ssh_key_file: Option<String>,
}

/// The daemon's configuration.
pub struct Config {
    /// The directory that holds one sub-directory per app.
    pub app_dir: String,
    /// Milliseconds between two ticks of the poll loop.
    pub task_poll: u32,
    pub api: Api,
}

/// Settings of the control surface.
pub struct Api {
    /// The global token.
    pub token: String,
    pub host: String,
    pub port: u16,
    pub workers: usize,
}

/// The length of a freshly generated global token.
pub const TOKEN_LEN: usize = 15;

pub open spec fn is_alphanumeric(c: char) -> bool {
    ('a' <= c <= 'z') || ('A' <= c <= 'Z') || ('0' <= c <= '9')
}

/// A token as the daemon generates it: fifteen ASCII letters or digits.
pub open spec fn is_generated_token(s: Seq<char>) -> bool {
    &&& s.len() == TOKEN_LEN
    &&& forall|i: int| 0 <= i < s.len() ==> is_alphanumeric(#[trigger] s[i])
}

/// Relies on rand's `Alphanumeric` distribution, drawn from the thread-local
/// generator: each sample is one of `A-Z`, `a-z`, `0-9`.
#[verifier::external_body]
fn random_alphanumeric() -> (c: u8)
    ensures
        is_alphanumeric(c as char),
{
    rand::Rng::sample(&mut rand::thread_rng(), rand::distributions::Alphanumeric)
}

/// The token that a series of drawn bytes spells: one character per byte.
pub fn token_from(draws: &Vec<u8>) -> (r: String)
    requires
        draws@.len() == TOKEN_LEN,
        forall|i: int| 0 <= i < draws@.len() ==> is_alphanumeric(#[trigger] draws@[i] as char),
    ensures
        r@ == draws@.map_values(|b: u8| b as char),
        is_generated_token(r@),
{
    let mut r = String::new();
    let mut i: usize = 0;
    while i < draws.len()
        invariant
            i <= draws@.len(),
            r@ == draws@.take(i as int).map_values(|b: u8| b as char),
        decreases draws@.len() - i,
    {
        push_char(&mut r, draws[i] as char);
        assert(draws@.take(i as int + 1) =~= draws@.take(i as int).push(draws@[i as int]));
        assert(r@ =~= draws@.take(i as int + 1).map_values(|b: u8| b as char));
        i = i + 1;
    }
    assert(draws@.take(draws@.len() as int) =~= draws@);
    assert forall|j: int| 0 <= j < r@.len() implies is_alphanumeric(#[trigger] r@[j]) by {
        assert(r@[j] == draws@[j] as char);
    }
    r
}

/// A fresh random global token: fifteen draws from the random source,
/// spelled out by `token_from`.
pub fn generate_token() -> (r: String)
    ensures
        is_generated_token(r@),
{
    let mut draws: Vec<u8> = Vec::new();
    let mut i: usize = 0;
    while i < TOKEN_LEN
        invariant
            i <= TOKEN_LEN,
            draws@.len() == i,
            forall|j: int| 0 <= j < i ==> is_alphanumeric(#[trigger] draws@[j] as char),
        decreases TOKEN_LEN - i,
    {
        draws.push(random_alphanumeric());
        i = i + 1;
    }
    token_from(&draws)
}

impl Default for Config {
    /// The configuration written on first boot, with a fresh global token.
    fn default() -> (r: Config)
        ensures
            r.app_dir@ == "./apps"@,
            r.task_poll == 1000,
            is_generated_token(r.api.token@),
            r.api.host@ == "localhost"@,
            r.api.port == 3401,
            r.api.workers == 10,
    {
        Config {
            app_dir: String::from_str("./apps"),
            task_poll: 1000,
            api: Api {
                token: generate_token(),
                host: String::from_str("localhost"),
                port: 3401,
                workers: 10,
            },
        }
    }
}

} // verus!
