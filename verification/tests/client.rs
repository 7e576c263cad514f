use carechords::client::{
    device_id, device_id_from_digest, AuthAction, AuthFailure, AuthState, CredentialSource,
    UnauthenticatedSpotifyClient, DEFAULT_CACHE_FOLDER, SETUP_DEVICE_NAME,
};

#[test]
fn device_id_is_the_hex_of_the_sha1_of_the_name() {
    assert_eq!(device_id(SETUP_DEVICE_NAME), "1a72f1af084c6be6956de73ae170678fc7811798");
    assert_eq!(device_id(""), "da39a3ee5e6b4b0d3255bfef95601890afd80709");
    assert_eq!(device_id("hello world"), "2aae6c35c94fcfb415dbe95f408b9ce91ee846ed");
    assert_eq!(device_id("hello world").len(), 40);
}

#[test]
fn digest_is_written_in_lower_case_hex() {
    assert_eq!(device_id_from_digest(&[]), "");
    assert_eq!(device_id_from_digest(&[0x00, 0x0f, 0x10, 0xab, 0xff]), "000f10abff");
    assert_eq!(device_id_from_digest(&[1, 2, 3, 15, 16]), "0102030f10");
}

#[test]
fn client_caches_in_the_default_folder() {
    let c = UnauthenticatedSpotifyClient::new();
    assert_eq!(c.cache_folder(), "cache");
    assert_eq!(DEFAULT_CACHE_FOLDER, "cache");
}

#[test]
fn cached_credentials_are_used_first() {
    let s = AuthState::start();
    assert_eq!(s.action(), AuthAction::ReadCache);
    let s = s.next(true);
    assert_eq!(s.action(), AuthAction::Connect(CredentialSource::Cache));
    let s = s.next(true);
    assert_eq!(s, AuthState::Authenticated);
    assert_eq!(s.action(), AuthAction::Finish);
    assert_eq!(s.next(false), AuthState::Authenticated);
}

#[test]
fn discovery_is_the_fallback() {
    let s = AuthState::start().next(false);
    assert_eq!(s.action(), AuthAction::Discover);
    let s = s.next(true);
    assert_eq!(s.action(), AuthAction::Connect(CredentialSource::Discovery));
    assert_eq!(s.next(true), AuthState::Authenticated);
}

#[test]
fn each_failure_is_told_apart() {
    let none = AuthState::start().next(false).next(false);
    assert_eq!(none.action(), AuthAction::GiveUp(AuthFailure::NoCredentials));
    let cache = AuthState::start().next(true).next(false);
    assert_eq!(cache.action(), AuthAction::GiveUp(AuthFailure::Rejected(CredentialSource::Cache)));
    let found = AuthState::start().next(false).next(true).next(false);
    assert_eq!(
        found.action(),
        AuthAction::GiveUp(AuthFailure::Rejected(CredentialSource::Discovery))
    );
    assert_eq!(found.next(true), found);
}
