//! The check of a remote-control request: its verification token, and the
//! system that its action names.
use vstd::prelude::*;
use crate::text::str_eq;
use crate::text::push_str;

verus! {

/// Why a remote-control request was refused.
#[derive(Debug)]
pub enum ControlError {
    /// The body is not JSON; the parser's words.
    InvalidJson(String),
    MissingVerification,
    InvalidVerification,
    MissingAction,
    ActionNotFound,
}

pub open spec fn control_message(e: ControlError) -> Seq<char> {
    match e {
        ControlError::InvalidJson(m) => "Invalid JSON: "@ + m@,
        ControlError::MissingVerification => "Missing Verification Token"@,
        ControlError::InvalidVerification => "Invalid Verification Token"@,
        ControlError::MissingAction => "Missing Action"@,
        ControlError::ActionNotFound => "Action not found"@,
    }
}

impl ControlError {
    /// The text of the refusal.
    pub fn message(&self) -> (r: String)
        ensures
            r@ == control_message(*self),
    {
        match self {
            ControlError::InvalidJson(m) => {
                let mut s = String::from_str("Invalid JSON: ");
                push_str(&mut s, m.as_str());
                s
            },
            ControlError::MissingVerification => String::from_str("Missing Verification Token"),
            ControlError::InvalidVerification => String::from_str("Invalid Verification Token"),
            ControlError::MissingAction => String::from_str("Missing Action"),
            ControlError::ActionNotFound => String::from_str("Action not found"),
        }
    }
}

/// The string fields of a remote-control request body.
pub struct ControlRequest {
    pub verification: Option<String>,
    pub action: Option<String>,
}

/// `i` is the first system named `name`.
pub open spec fn first_system(systems: Seq<String>, name: Seq<char>, i: int) -> bool {
    &&& 0 <= i < systems.len()
    &&& systems[i]@ == name
    &&& forall|j: int| 0 <= j < i ==> (#[trigger] systems[j])@ != name
}

/// Checks a remote-control request (or the parser's words where its body is
/// not JSON) against the expected verification token and the names of the
/// registered systems: the index of the system to run, or why not.
pub fn check_control(expected: &str, req: &Result<ControlRequest, String>, systems: &Vec<String>) -> (r: Result<usize, ControlError>)
    ensures
        match req {
            Err(e) => r matches Err(ControlError::InvalidJson(m)) && m == e,
            Ok(q) => match q.verification {
                None => r matches Err(ControlError::MissingVerification),
                Some(v) => if v@ != expected@ {
                    r matches Err(ControlError::InvalidVerification)
                } else {
                    match q.action {
                        None => r matches Err(ControlError::MissingAction),
                        Some(a) => if exists|i: int| first_system(systems@, a@, i) {
                            r matches Ok(i) && first_system(systems@, a@, i as int)
                        } else {
                            r matches Err(ControlError::ActionNotFound)
                        },
                    }
                },
            },
        },
{
    let q = match req {
        Err(e) => return Err(ControlError::InvalidJson(e.clone())),
        Ok(q) => q,
    };
    let v = match &q.verification {
        None => return Err(ControlError::MissingVerification),
        Some(v) => v,
    };
    if !str_eq(v.as_str(), expected) {
        return Err(ControlError::InvalidVerification);
    }
    let a = match &q.action {
        None => return Err(ControlError::MissingAction),
        Some(a) => a,
    };
    match find_system(systems, a.as_str()) {
        Some(i) => Ok(i),
        None => Err(ControlError::ActionNotFound),
    }
}

/// The first system named `name`.
fn find_system(systems: &Vec<String>, name: &str) -> (r: Option<usize>)
    ensures
        match r {
            Some(i) => first_system(systems@, name@, i as int),
            None => !exists|i: int| first_system(systems@, name@, i),
        },
{
    let mut i: usize = 0;
    while i < systems.len()
        invariant
            i <= systems@.len(),
            forall|j: int| 0 <= j < i ==> (#[trigger] systems@[j])@ != name@,
        decreases systems@.len() - i,
    {
        if str_eq(systems[i].as_str(), name) {
            return Some(i);
        }
        i = i + 1;
    }
    proof {
        assert forall|k: int| !first_system(systems@, name@, k) by {
            if 0 <= k < systems@.len() {
                assert(systems@[k]@ != name@);
            }
        }
    }
    None
}

} // verus!
