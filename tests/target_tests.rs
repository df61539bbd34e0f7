use ws_peer::target::{host_from_authority, resolve_host, TargetError};
use ws_peer::verbosity::{LogLevel, Verbosity};

#[test]
fn userinfo_is_stripped_from_authority() {
    assert_eq!(host_from_authority("user@host:port"), Ok("host:port".to_string()));
}

#[test]
fn empty_authority_is_empty_host() {
    assert_eq!(host_from_authority(""), Err(TargetError::EmptyHostName));
}

#[test]
fn authority_of_only_userinfo_is_empty_host() {
    assert_eq!(host_from_authority("user@"), Err(TargetError::EmptyHostName));
}

#[test]
fn authority_without_userinfo_is_kept() {
    assert_eq!(host_from_authority("127.0.0.1:1337"), Ok("127.0.0.1:1337".to_string()));
}

#[test]
fn only_the_first_userinfo_segment_is_stripped() {
    assert_eq!(host_from_authority("a@b@c"), Ok("b@c".to_string()));
}

#[test]
fn default_target_resolves_to_loopback() {
    assert_eq!(resolve_host("ws://127.0.0.1:1337/"), Ok("127.0.0.1:1337".to_string()));
}

#[test]
fn target_userinfo_is_stripped() {
    assert_eq!(resolve_host("ws://user@host:80/"), Ok("host:80".to_string()));
}

#[test]
fn target_without_authority_has_no_host() {
    assert_eq!(resolve_host("/chat"), Err(TargetError::NoHostName));
}

#[test]
fn target_that_is_no_uri_is_rejected() {
    assert_eq!(resolve_host(""), Err(TargetError::InvalidUri));
    assert_eq!(resolve_host("ws://user@/"), Err(TargetError::InvalidUri));
}

#[test]
fn verbosity_selects_level_of_same_name() {
    assert_eq!(Verbosity::Trace.into_level(), LogLevel::Trace);
    assert_eq!(Verbosity::Debug.into_level(), LogLevel::Debug);
    assert_eq!(Verbosity::Info.into_level(), LogLevel::Info);
    assert_eq!(Verbosity::Warn.into_level(), LogLevel::Warn);
    assert_eq!(Verbosity::Error.into_level(), LogLevel::Error);
}
