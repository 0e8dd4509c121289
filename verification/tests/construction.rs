use grpc_stream_manager::backoff::BackoffPolicy;
use grpc_stream_manager::transport::{CONNECT_TIMEOUT_MS, REQUEST_SNAPSHOT, REQUEST_TIMEOUT_MS};
use grpc_stream_manager::manager::GrpcStreamManager;
use grpc_stream_manager::protocol::ManagerError;

const ENDPOINT: &str = "https://node.example:10000";

fn build(endpoint: &str, x_token: Option<&str>) -> Result<GrpcStreamManager<u8>, ManagerError> {
    GrpcStreamManager::new(endpoint, x_token.map(|token| token.to_string()))
}

fn error_of(endpoint: &str, x_token: Option<&str>) -> Option<ManagerError> {
    build(endpoint, x_token).err()
}

#[test]
fn timeouts_are_ten_seconds() {
    assert_eq!(CONNECT_TIMEOUT_MS, 10_000);
    assert_eq!(REQUEST_TIMEOUT_MS, 10_000);
}

#[test]
fn a_snapshot_is_requested() {
    assert!(REQUEST_SNAPSHOT);
}

#[test]
fn credential_with_a_line_feed_is_a_config_error() {
    assert_eq!(error_of(ENDPOINT, Some("bad\ntoken")), Some(ManagerError::Config));
}

#[test]
fn credential_with_a_control_character_is_a_config_error() {
    assert_eq!(error_of(ENDPOINT, Some("bad\u{0}token")), Some(ManagerError::Config));
    assert_eq!(error_of(ENDPOINT, Some("bad\rtoken")), Some(ManagerError::Config));
    assert_eq!(error_of(ENDPOINT, Some("\u{1f}")), Some(ManagerError::Config));
}

#[test]
fn credential_with_the_delete_character_is_a_config_error() {
    assert_eq!(error_of(ENDPOINT, Some("bad\u{7f}token")), Some(ManagerError::Config));
}

#[test]
fn plain_credential_is_accepted() {
    assert!(build(ENDPOINT, Some("0123-abcd-XYZ")).is_ok());
}

#[test]
fn credential_with_tab_and_space_is_accepted() {
    assert!(build(ENDPOINT, Some("a\tb c")).is_ok());
}

#[test]
fn empty_credential_is_accepted() {
    assert!(build(ENDPOINT, Some("")).is_ok());
}

#[test]
fn credential_beyond_ascii_is_accepted() {
    assert!(build(ENDPOINT, Some("t\u{f6}k\u{e9}n")).is_ok());
    assert!(build(ENDPOINT, Some("\u{80}")).is_ok());
}

#[test]
fn no_credential_is_accepted() {
    assert!(build(ENDPOINT, None).is_ok());
}

#[test]
fn empty_endpoint_is_a_config_error() {
    assert_eq!(error_of("", None), Some(ManagerError::Config));
}

#[test]
fn malformed_endpoint_is_a_config_error() {
    assert_eq!(error_of("http://exa mple.com", None), Some(ManagerError::Config));
    assert_eq!(error_of("http://[::1", None), Some(ManagerError::Config));
}

#[test]
fn endpoint_forms_that_the_transport_accepts() {
    assert!(build("http://127.0.0.1:10000", None).is_ok());
    assert!(build("https://node.example", None).is_ok());
    assert!(build("unix:/tmp/geyser.sock", None).is_ok());
}

#[test]
fn bad_credential_and_bad_endpoint_together_are_a_config_error() {
    assert_eq!(error_of("", Some("bad\ntoken")), Some(ManagerError::Config));
}

#[test]
fn assemble_builds_only_when_both_checks_passed() {
    let policy = BackoffPolicy::new(4, 100);
    let built = GrpcStreamManager::<u8>::assemble(ENDPOINT, Some("t".to_string()), policy, true, true);
    let manager = built.ok().unwrap();
    assert_eq!(manager.endpoint(), ENDPOINT);
    assert_eq!(manager.x_token(), &Some("t".to_string()));
    assert_eq!(manager.policy(), policy);
    assert_eq!(manager.reconnect_attempts(), 0);

    for (credential_passed, endpoint_passed) in [(true, false), (false, true), (false, false)] {
        let refused = GrpcStreamManager::<u8>::assemble(
            ENDPOINT,
            None,
            policy,
            credential_passed,
            endpoint_passed,
        );
        assert_eq!(refused.err(), Some(ManagerError::Config));
    }
}

#[test]
fn with_policy_keeps_the_policy() {
    let policy = BackoffPolicy::new(2, 750);
    let manager = GrpcStreamManager::<u8>::with_policy(ENDPOINT, None, policy).ok().unwrap();
    assert_eq!(manager.policy(), policy);
}

#[test]
fn credential_characters_at_the_edges_of_the_accepted_range() {
    assert!(build(ENDPOINT, Some(" ")).is_ok());
    assert!(build(ENDPOINT, Some("~")).is_ok());
    assert!(build(ENDPOINT, Some("\t")).is_ok());
    assert_eq!(error_of(ENDPOINT, Some("\u{8}")), Some(ManagerError::Config));
    assert_eq!(error_of(ENDPOINT, Some("\u{a}")), Some(ManagerError::Config));
    assert_eq!(error_of(ENDPOINT, Some("\u{1f}x")), Some(ManagerError::Config));
    assert_eq!(error_of(ENDPOINT, Some("x\u{7f}")), Some(ManagerError::Config));
    assert!(build(ENDPOINT, Some("\u{7ff}\u{800}\u{ffff}\u{10000}\u{10ffff}")).is_ok());
}

#[test]
fn bad_credential_is_refused_whatever_the_policy() {
    let policy = BackoffPolicy::new(1, 1);
    let refused =
        GrpcStreamManager::<u8>::with_policy(ENDPOINT, Some("a\nb".to_string()), policy);
    assert_eq!(refused.err(), Some(ManagerError::Config));
}
