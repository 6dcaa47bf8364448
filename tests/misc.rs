use std::io::Write;

use chalk::api::ApiError;
use chalk::auth::real_ip;
use chalk::config::ProjectGitConfig;
use chalk::control::{check_control, ControlError, ControlRequest};
use chalk::text::decimal;
use chalk::timer::{sleep_after, Timer};
use chalk::update::{
    branch_ref_name, choose_credential, decode_binary, fast_forward_message, merge_message, merge_result, merge_step,
    new_branch_message, Credential, CredentialError, MergeAnalysis, MergeStep,
};

fn gzip_base64(bytes: &[u8]) -> String {
    let mut enc = flate2::write::GzEncoder::new(Vec::new(), flate2::Compression::default());
    enc.write_all(bytes).unwrap();
    base64::encode(enc.finish().unwrap())
}

#[test]
fn binary_payload_decodes() {
    let data = gzip_base64(b"\x7fELF binary");
    assert_eq!(decode_binary(&data).unwrap(), b"\x7fELF binary".to_vec());
}

#[test]
fn binary_payload_errors() {
    let e = decode_binary("not base64!").unwrap_err();
    assert!(matches!(e, ApiError::InvalidBase64));
    assert_eq!(e.message(), "`data` is not valid base64");
    let e = decode_binary(&base64::encode(b"plain bytes")).unwrap_err();
    assert!(matches!(e, ApiError::InvalidGzip));
    assert_eq!(e.message(), "Error decompressing");
}

#[test]
fn merge_conflicts_stop_the_update() {
    assert_eq!(merge_step(&MergeAnalysis { fast_forward: false, normal: true }), MergeStep::Normal);
    assert_eq!(merge_step(&MergeAnalysis { fast_forward: true, normal: true }), MergeStep::FastForward);
    assert_eq!(merge_step(&MergeAnalysis { fast_forward: false, normal: false }), MergeStep::UpToDate);
    let e = merge_result(true).unwrap_err();
    assert_eq!(e.message(), "Merge conflicts o.o");
    assert_eq!(e.status(), 400);
    assert!(merge_result(false).is_ok());
}

#[test]
fn git_messages() {
    assert_eq!(branch_ref_name("main"), "refs/heads/main");
    assert_eq!(merge_message("abc", "def"), "Merge: abc into def");
    assert_eq!(fast_forward_message("refs/heads/main", "abc"), "Fast-Forward: Setting refs/heads/main to id: abc");
    assert_eq!(new_branch_message("main", "abc"), "Setting main to abc");
}

fn git(user: Option<&str>, token: Option<&str>, key: Option<&str>) -> ProjectGitConfig {
    ProjectGitConfig {
        repo: Some("git@example.com:r.git".to_string()),
        username: user.map(|s| s.to_string()),
        token: token.map(|s| s.to_string()),
        ssh_key_file: key.map(|s| s.to_string()),
    }
}

#[test]
fn credentials_prefer_ssh_key() {
    match choose_credential(&git(Some("me"), Some("tok"), Some("/k")), Some("git"), true, true).unwrap() {
        Credential::SshKey { username, key_file } => {
            assert_eq!(username, "git");
            assert_eq!(key_file, "/k");
        }
        _ => panic!("expected a key"),
    }
    match choose_credential(&git(Some("me"), Some("tok"), None), None, true, true).unwrap() {
        Credential::UserPass { username, token } => {
            assert_eq!(username, "me");
            assert_eq!(token, "tok");
        }
        _ => panic!("expected a token"),
    }
    assert_eq!(choose_credential(&git(None, Some("tok"), None), None, false, true).unwrap_err(), CredentialError::NoUsername);
    assert_eq!(choose_credential(&git(Some("me"), None, None), None, true, true).unwrap_err(), CredentialError::NoCredential);
}

#[test]
fn forwarded_address_only_from_loopback() {
    assert_eq!(real_ip("127.0.0.1", true, Some("1.2.3.4")), "1.2.3.4");
    assert_eq!(real_ip("9.9.9.9", false, Some("1.2.3.4")), "9.9.9.9");
    assert_eq!(real_ip("127.0.0.1", true, None), "127.0.0.1");
}

#[test]
fn remote_control_checks() {
    let systems = vec!["restart".to_string(), "ping".to_string()];
    let req = |v: Option<&str>, a: Option<&str>| -> Result<ControlRequest, String> {
        Ok(ControlRequest { verification: v.map(|s| s.to_string()), action: a.map(|s| s.to_string()) })
    };
    assert_eq!(check_control("k", &req(Some("k"), Some("ping")), &systems).unwrap(), 1);
    let e = check_control("k", &req(None, Some("ping")), &systems).unwrap_err();
    assert_eq!(e.message(), "Missing Verification Token");
    let e = check_control("k", &req(Some("x"), Some("ping")), &systems).unwrap_err();
    assert_eq!(e.message(), "Invalid Verification Token");
    let e = check_control("k", &req(Some("k"), None), &systems).unwrap_err();
    assert_eq!(e.message(), "Missing Action");
    let e = check_control("k", &req(Some("k"), Some("fly")), &systems).unwrap_err();
    assert!(matches!(e, ControlError::ActionNotFound));
    assert_eq!(e.message(), "Action not found");
    let e = check_control("k", &Err("eof".to_string()), &systems).unwrap_err();
    assert_eq!(e.message(), "Invalid JSON: eof");
}

#[test]
fn tick_sleep() {
    assert_eq!(sleep_after(1000, 200), 800);
    assert_eq!(sleep_after(1000, 1000), 0);
    assert_eq!(sleep_after(1000, 5000), 0);
    let mut timer = Timer::new(250);
    timer.begin_tick(std::time::Instant::now());
    assert!(timer.remaining() <= 250);
    assert_eq!(timer.time, 250);
}

#[test]
fn decimal_text() {
    assert_eq!(decimal(0), "0");
    assert_eq!(decimal(7), "7");
    assert_eq!(decimal(1234567890), "1234567890");
    assert_eq!(decimal(u64::MAX), "18446744073709551615");
}

#[test]
fn empty_payload_is_not_gzip() {
    assert!(matches!(decode_binary(""), Err(ApiError::InvalidGzip)));
}
