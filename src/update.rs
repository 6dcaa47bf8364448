//! The update engine's own logic: decoding an uploaded executable, the
//! merge decisions taken on a fetched branch, and the choice of credentials
//! for the repository. The repository work itself is done by the caller.
use vstd::prelude::*;
use crate::api::ApiError;
use crate::config::ProjectGitConfig;
use crate::text::{push_str, join3};

verus! {

/// The bytes that standard base64 (with padding) decodes `s` to; none where
/// `s` is not valid base64.
pub uninterp spec fn base64_decoded(s: Seq<char>) -> Option<Seq<u8>>;

/// The bytes that a gzip stream decompresses to; none where it is not a
/// valid gzip stream.
pub uninterp spec fn gunzipped(b: Seq<u8>) -> Option<Seq<u8>>;

/// Relies on base64 0.13's `decode`, with its standard alphabet and padding.
#[verifier::external_body]
fn decode_base64(s: &str) -> (r: Option<Vec<u8>>)
    ensures
        r is Some ==> base64_decoded(s@) == Some(r->0@),
        r is None ==> base64_decoded(s@) is None,
        s@.len() == 0 ==> r is Some && r->0@.len() == 0,
{
    base64::decode(s).ok()
}

/// Relies on flate2's `GzDecoder`, read to its end: the decompressed bytes
/// of the stream's first member.
#[verifier::external_body]
fn gunzip(b: &[u8]) -> (r: Option<Vec<u8>>)
    ensures
        r is Some ==> gunzipped(b@) == Some(r->0@),
        r is None ==> gunzipped(b@) is None,
{
    let mut out = Vec::new();
    match std::io::Read::read_to_end(&mut flate2::read::GzDecoder::new(b), &mut out) {
        Ok(_) => Some(out),
        Err(_) => None,
    }
}

/// The executable that an update's `data` field carries: base64 of its gzip
/// compression.
pub fn decode_binary(data: &str) -> (r: Result<Vec<u8>, ApiError>)
    ensures
        match base64_decoded(data@) {
            None => r matches Err(ApiError::InvalidBase64),
            Some(z) => match gunzipped(z) {
                None => r matches Err(ApiError::InvalidGzip),
                Some(b) => r matches Ok(v) && v@ == b,
            },
        },
{
    let z = match decode_base64(data) {
        Some(z) => z,
        None => return Err(ApiError::InvalidBase64),
    };
    match gunzip(z.as_slice()) {
        Some(b) => Ok(b),
        None => Err(ApiError::InvalidGzip),
    }
}

/// The merge planner's classification of a fetched commit against the head.
pub struct MergeAnalysis {
    pub fast_forward: bool,
    pub normal: bool,
}

/// What a merge does.
#[derive(Debug, Clone, Copy, PartialEq, Eq, Structural)]
pub enum MergeStep {
    /// Move the branch to the fetched commit and check it out.
    FastForward,
    /// Merge the trees against their merge base and commit the result.
    Normal,
    /// Nothing to merge.
    UpToDate,
}

/// The step a merge analysis calls for: fast-forward before a normal merge.
pub fn merge_step(a: &MergeAnalysis) -> (r: MergeStep)
    ensures
        r == (if a.fast_forward {
            MergeStep::FastForward
        } else if a.normal {
            MergeStep::Normal
        } else {
            MergeStep::UpToDate
        }),
{
    if a.fast_forward {
        MergeStep::FastForward
    } else if a.normal {
        MergeStep::Normal
    } else {
        MergeStep::UpToDate
    }
}

/// A normal merge whose trees conflict stops there, uncommitted.
pub fn merge_result(has_conflicts: bool) -> (r: Result<(), ApiError>)
    ensures
        has_conflicts ==> r matches Err(ApiError::MergeConflicts),
        !has_conflicts ==> r is Ok,
{
    if has_conflicts { Err(ApiError::MergeConflicts) } else { Ok(()) }
}

/// The full name of a local branch.
pub fn branch_ref_name(branch: &str) -> (r: String)
    ensures
        r@ == "refs/heads/"@ + branch@,
{
    let mut r = String::from_str("refs/heads/");
    push_str(&mut r, branch);
    r
}

/// The reflog message of a fast-forward of an existing branch.
pub fn fast_forward_message(name: &str, id: &str) -> (r: String)
    ensures
        r@ == "Fast-Forward: Setting "@ + name@ + " to id: "@ + id@,
{
    let mut r = join3("Fast-Forward: Setting ", name, " to id: ");
    push_str(&mut r, id);
    r
}

/// The reflog message of a branch created at the fetched commit.
pub fn new_branch_message(branch: &str, id: &str) -> (r: String)
    ensures
        r@ == "Setting "@ + branch@ + " to "@ + id@,
{
    let mut r = join3("Setting ", branch, " to ");
    push_str(&mut r, id);
    r
}

/// The message of a merge commit.
pub fn merge_message(remote_id: &str, local_id: &str) -> (r: String)
    ensures
        r@ == "Merge: "@ + remote_id@ + " into "@ + local_id@,
{
    let mut r = join3("Merge: ", remote_id, " into ");
    push_str(&mut r, local_id);
    r
}

/// Credentials offered to the repository's remote.
#[derive(Debug)]
pub enum Credential {
    /// A private key file, for the named user.
    SshKey { username: String, key_file: String },
    /// A user name and a token as password.
    UserPass { username: String, token: String },
}

/// Why no credentials could be offered.
#[derive(Debug, Clone, Copy, PartialEq, Eq, Structural)]
pub enum CredentialError {
    NoUsername,
    NoCredential,
}

/// The user name: the one in the remote's URL, else the configured one.
pub open spec fn cred_user(git: ProjectGitConfig, from_url: Option<Seq<char>>) -> Option<Seq<char>> {
    match from_url {
        Some(u) => Some(u),
        None => match git.username {
            Some(u) => Some(u@),
            None => None,
        },
    }
}

fn opt_str_view(o: Option<&str>) -> (r: Option<String>)
    ensures
        match o {
            Some(s) => r matches Some(x) && x@ == s@,
            None => r is None,
        },
{
    match o {
        Some(s) => Some(String::from_str(s)),
        None => None,
    }
}

/// The credentials for a remote that allows the given kinds: a private key
/// where keys are allowed and one is configured; else a user name and token
/// where those are allowed and a token is configured; else none.
pub fn choose_credential(
    git: &ProjectGitConfig,
    username_from_url: Option<&str>,
    ssh_allowed: bool,
    userpass_allowed: bool,
) -> (r: Result<Credential, CredentialError>)
    ensures
        ({
            let user = cred_user(*git, match username_from_url { Some(s) => Some(s@), None => None });
            if ssh_allowed && git.ssh_key_file is Some {
                match user {
                    None => r == Err::<Credential, CredentialError>(CredentialError::NoUsername),
                    Some(u) => r matches Ok(Credential::SshKey { username, key_file })
                        && username@ == u && key_file == git.ssh_key_file->0,
                }
            } else if userpass_allowed && git.token is Some {
                match user {
                    None => r == Err::<Credential, CredentialError>(CredentialError::NoUsername),
                    Some(u) => r matches Ok(Credential::UserPass { username, token })
                        && username@ == u && token == git.token->0,
                }
            } else {
                r == Err::<Credential, CredentialError>(CredentialError::NoCredential)
            }
        }),
{
    let user = match opt_str_view(username_from_url) {
        Some(u) => Some(u),
        None => match &git.username {
            Some(u) => Some(u.clone()),
            None => None,
        },
    };
    if ssh_allowed {
        if let Some(key) = &git.ssh_key_file {
            return match user {
                None => Err(CredentialError::NoUsername),
                Some(u) => Ok(Credential::SshKey { username: u, key_file: key.clone() }),
            };
        }
    }
    if userpass_allowed {
        if let Some(token) = &git.token {
            return match user {
                None => Err(CredentialError::NoUsername),
                Some(u) => Ok(Credential::UserPass { username: u, token: token.clone() }),
            };
        }
    }
    Err(CredentialError::NoCredential)
}

} // verus!
