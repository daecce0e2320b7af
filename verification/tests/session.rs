use offload::error::{ErrorKind, Failure};
use offload::session::{
    classify_handshake, connect_request, ConnectRequest, Handshake, HostKeyCheck,
    HANDSHAKE_TIMEOUT_SECS,
};

fn rejected(permission_denied: bool, message: &str) -> Handshake {
    Handshake::Rejected { permission_denied, message: message.to_string() }
}

#[test]
fn handshake_deadline_is_five_seconds() {
    assert_eq!(HANDSHAKE_TIMEOUT_SECS, 5);
}

#[test]
fn connect_request_is_strict_and_bounded() {
    assert_eq!(
        connect_request("user@build.example.com:2222"),
        ConnectRequest {
            destination: "user@build.example.com:2222".to_string(),
            host_keys: HostKeyCheck::Strict,
            timeout_secs: 5,
        }
    );
}

#[test]
fn established_handshake_is_no_failure() {
    assert_eq!(classify_handshake(Handshake::Established), None);
}

#[test]
fn exceeded_deadline_is_connect_timeout() {
    assert_eq!(
        classify_handshake(Handshake::DeadlineExceeded),
        Some(Failure::new(ErrorKind::ConnectTimeout, "Timed out connecting to host"))
    );
}

#[test]
fn denied_permission_is_auth_failed() {
    let message = "user@host: Permission denied (publickey,password).";
    assert_eq!(
        classify_handshake(rejected(true, message)),
        Some(Failure::new(
            ErrorKind::AuthFailed,
            "Failed to connect to host: user@host: Permission denied (publickey,password)."
        ))
    );
}

#[test]
fn rejected_host_key_is_host_unknown() {
    let message = "No ED25519 host key is known for build.example.com and you have requested strict checking.\nHost key verification failed.";
    let failure = classify_handshake(rejected(false, message)).unwrap();
    assert_eq!(failure.kind, ErrorKind::HostUnknown);
    assert_eq!(failure.reason, format!("Failed to connect to host: {}", message));
}

#[test]
fn other_rejections_are_session_errors() {
    for message in ["connect to host example.com port 22: Connection refused", "", "host key"] {
        let failure = classify_handshake(rejected(false, message)).unwrap();
        assert_eq!(failure.kind, ErrorKind::SessionError);
        assert_eq!(failure.reason, format!("Failed to connect to host: {}", message));
    }
}

#[test]
fn denied_permission_wins_over_the_message() {
    let failure = classify_handshake(rejected(true, "Host key verification failed.")).unwrap();
    assert_eq!(failure.kind, ErrorKind::AuthFailed);
}
