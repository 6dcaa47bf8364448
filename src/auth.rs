//! The token authority: which tokens grant which requests.
use vstd::prelude::*;
use crate::daemon::{App, is_first_named};
use crate::text::str_eq;
use crate::project::Project;

verus! {

/// The class of token that a request requires, or that a token has.
pub enum ValidateType {
    /// The daemon's global token.
    Global,
    /// The scoped token of the named app.
    Scoped(String),
    /// Any valid token, global or scoped.
    Any,
}

/// Some app has `token` as its scoped token.
pub open spec fn some_app_token(ps: Seq<Project>, token: Seq<char>) -> bool {
    exists|i: int| 0 <= i < ps.len() && (#[trigger] ps[i]).config.api_token@ == token
}

/// `i` is the first app whose scoped token is `token`.
pub open spec fn is_first_with_token(ps: Seq<Project>, token: Seq<char>, i: int) -> bool {
    &&& 0 <= i < ps.len()
    &&& ps[i].config.api_token@ == token
    &&& forall|j: int| 0 <= j < i ==> (#[trigger] ps[j]).config.api_token@ != token
}

/// Whether `token` is the global token or the scoped token of app `name`
/// (the first of that name).
pub open spec fn scoped_ok(global: Seq<char>, ps: Seq<Project>, name: Seq<char>, token: Seq<char>) -> bool {
    token == global || exists|i: int| is_first_named(ps, name, i) && (#[trigger] ps[i]).config.api_token@ == token
}

/// Whether `token` satisfies the class `v`: the global token satisfies every
/// class; a scoped token satisfies its own app's class and `Any`.
pub open spec fn satisfies(v: ValidateType, global: Seq<char>, ps: Seq<Project>, token: Seq<char>) -> bool {
    token == global || match v {
        ValidateType::Global => false,
        ValidateType::Scoped(name) => scoped_ok(global, ps, name@, token),
        ValidateType::Any => some_app_token(ps, token),
    }
}

pub open spec fn class_name(v: ValidateType) -> Seq<char> {
    match v {
        ValidateType::Global => "global"@,
        ValidateType::Scoped(_) => "scoped"@,
        ValidateType::Any => "any"@,
    }
}

impl ValidateType {
    /// The most specific class that `token` has: global, else the scoped
    /// class of the first app it belongs to, else `Any` (which the caller
    /// then rejects).
    pub fn token_type(app: &App, token: &str) -> (r: ValidateType)
        ensures
            token@ == app.config.api.token@ ==> r is Global,
            token@ != app.config.api.token@ && some_app_token(app.projects@, token@) ==> exists|i: int|
                is_first_with_token(app.projects@, token@, i) && (r matches ValidateType::Scoped(n)
                    && n@ == (#[trigger] app.projects@[i]).name@),
            token@ != app.config.api.token@ && !some_app_token(app.projects@, token@) ==> r is Any,
    {
        if str_eq(token, app.config.api.token.as_str()) {
            return ValidateType::Global;
        }
        let mut i: usize = 0;
        while i < app.projects.len()
            invariant
                i <= app.projects@.len(),
                token@ != app.config.api.token@,
                forall|j: int| 0 <= j < i ==> (#[trigger] app.projects@[j]).config.api_token@ != token@,
            decreases app.projects@.len() - i,
        {
            if str_eq(app.projects[i].config.api_token.as_str(), token) {
                assert(is_first_with_token(app.projects@, token@, i as int));
                return ValidateType::Scoped(app.projects[i].name.clone());
            }
            i = i + 1;
        }
        ValidateType::Any
    }

    /// Whether `token` satisfies this class.
    pub fn validate(&self, app: &App, token: &str) -> (r: bool)
        ensures
            r == satisfies(*self, app.config.api.token@, app.projects@, token@),
    {
        if str_eq(token, app.config.api.token.as_str()) {
            return true;
        }
        match self {
            ValidateType::Global => false,
            ValidateType::Scoped(name) => match app.find(name.as_str()) {
                Some(i) => {
                    let r = str_eq(app.projects[i].config.api_token.as_str(), token);
                    proof {
                        if !r {
                            assert forall|k: int| is_first_named(app.projects@, name@, k) implies
                                (#[trigger] app.projects@[k]).config.api_token@ != token@ by {
                                if k < i {
                                } else if k > i {
                                    assert(app.projects@[i as int].name@ == name@);
                                }
                            }
                        }
                    }
                    r
                },
                None => false,
            },
            ValidateType::Any => {
                let mut i: usize = 0;
                while i < app.projects.len()
                    invariant
                        i <= app.projects@.len(),
                        token@ != app.config.api.token@,
                        *self is Any,
                        forall|j: int| 0 <= j < i ==> (#[trigger] app.projects@[j]).config.api_token@ != token@,
                    decreases app.projects@.len() - i,
                {
                    if str_eq(app.projects[i].config.api_token.as_str(), token) {
                        assert(app.projects@[i as int].config.api_token@ == token@);
                        return true;
                    }
                    i = i + 1;
                }
                false
            },
        }
    }

    /// The class's name, as the ping response reports it.
    pub fn name(&self) -> (r: &'static str)
        ensures
            r@ == class_name(*self),
    {
        proof {
            reveal_strlit("global");
            reveal_strlit("scoped");
            reveal_strlit("any");
        }
        match self {
            ValidateType::Global => "global",
            ValidateType::Scoped(_) => "scoped",
            ValidateType::Any => "any",
        }
    }
}

/// The address a request comes from: the `X-Forwarded-For` header where the
/// peer is the loopback interface and the header is there, else the peer.
pub fn real_ip(peer: &str, peer_is_loopback: bool, forwarded: Option<&str>) -> (r: String)
    ensures
        r@ == (match forwarded {
            Some(f) if peer_is_loopback => f@,
            _ => peer@,
        }),
{
    match forwarded {
        Some(f) if peer_is_loopback => String::from_str(f),
        _ => String::from_str(peer),
    }
}

} // verus!
