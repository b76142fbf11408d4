use twitch_vod_rss::coalescer::{Admission, Coalescer, Step};
use twitch_vod_rss::error::{handle_helix_error, TwitchRssError};
use twitch_vod_rss::model::{AccessToken, ChannelHandle, CredentialPair, UserId, VideoRecord};
use twitch_vod_rss::stages::{
    resolution_outcome, ChannelResolver, TokenManager, VideoLister, TOKEN_TTL_SECS,
    USER_ID_TTL_SECS, VIDEOS_TTL_SECS,
};

fn creds() -> CredentialPair {
    CredentialPair { client_id: "id".to_string(), client_secret: "secret".to_string() }
}

fn handle(s: &str) -> ChannelHandle {
    ChannelHandle { login: s.to_string() }
}

fn user(s: &str) -> UserId {
    UserId { id: s.to_string() }
}

fn video(id: &str) -> VideoRecord {
    VideoRecord {
        id: id.to_string(),
        title: "T".to_string(),
        url: format!("https://vod/{}", id),
        thumbnail_url: "https://th/%{width}x%{height}.jpg".to_string(),
        description: String::new(),
        created_at: "2023-01-01T00:00:00Z".to_string(),
    }
}

#[test]
fn ttl_constants() {
    assert_eq!(TOKEN_TTL_SECS, 1200);
    assert_eq!(USER_ID_TTL_SECS, 600);
    assert_eq!(VIDEOS_TTL_SECS, 600);
}

#[test]
fn token_served_from_cache_until_expiry() {
    let mut tokens = TokenManager::new();
    assert!(matches!(tokens.get_token(&creds(), 100), Step::Fetch));
    let (r, released) =
        tokens.token_fetched(&creds(), Ok(AccessToken { value: "tok".to_string() }), 100);
    assert_eq!(r.unwrap().value, "tok");
    assert_eq!(released, 0);
    match tokens.get_token(&creds(), 100) {
        Step::Ready(t) => assert_eq!(t.value, "tok"),
        _ => panic!("expected the cached token"),
    }
    match tokens.get_token(&creds(), 1299) {
        Step::Ready(t) => assert_eq!(t.value, "tok"),
        _ => panic!("expected the cached token"),
    }
    assert!(matches!(tokens.get_token(&creds(), 1300), Step::Fetch));
}

#[test]
fn other_credentials_have_their_own_token() {
    let mut tokens = TokenManager::new();
    assert!(matches!(tokens.get_token(&creds(), 0), Step::Fetch));
    tokens.token_fetched(&creds(), Ok(AccessToken { value: "tok".to_string() }), 0);
    let other = CredentialPair { client_id: "id".to_string(), client_secret: "other".to_string() };
    assert!(matches!(tokens.get_token(&other, 1), Step::Fetch));
}

#[test]
fn token_failure_is_token_error_and_not_cached() {
    let mut tokens = TokenManager::new();
    assert!(matches!(tokens.get_token(&creds(), 5), Step::Fetch));
    let (r, _) = tokens.token_fetched(&creds(), Err("bad credentials".to_string()), 5);
    assert_eq!(r.err(), Some(TwitchRssError::Token("bad credentials".to_string())));
    assert!(matches!(tokens.get_token(&creds(), 6), Step::Fetch));
}

#[test]
fn concurrent_callers_share_one_computation() {
    let mut c: Coalescer<ChannelHandle, UserId> = Coalescer::new(600);
    let key = handle("somechannel");
    assert_eq!(c.begin(&key, 10), Admission::Lead);
    for t in 11..15 {
        assert_eq!(c.begin(&key, t), Admission::Join);
    }
    let released = c.complete(&key, Some(user("42")), 20);
    assert_eq!(released, 4);
    assert_eq!(c.begin(&key, 21), Admission::Cached);
    assert_eq!(c.lookup(&key, 21).unwrap().id, "42");
}

#[test]
fn concurrent_callers_share_one_failure() {
    let mut videos = VideoLister::new();
    let key = user("42");
    assert!(matches!(videos.get_user_videos(&key, 0), Step::Fetch));
    assert!(matches!(videos.get_user_videos(&key, 1), Step::Wait));
    assert!(matches!(videos.get_user_videos(&key, 2), Step::Wait));
    let (r, released) =
        videos.videos_fetched(&key, Err(TwitchRssError::RequestError("timeout".to_string())), 3);
    assert_eq!(released, 2);
    assert_eq!(r.err(), Some(TwitchRssError::RequestError("timeout".to_string())));
}

#[test]
fn failed_listing_is_retried() {
    let mut videos = VideoLister::new();
    let key = user("42");
    assert!(matches!(videos.get_user_videos(&key, 0), Step::Fetch));
    videos.videos_fetched(&key, Err(TwitchRssError::Unauthorized), 1);
    assert!(matches!(videos.get_user_videos(&key, 1), Step::Fetch));
    let (r, _) = videos.videos_fetched(&key, Ok(vec![video("v1"), video("v2")]), 2);
    let ids: Vec<String> = r.unwrap().into_iter().map(|v| v.id).collect();
    assert_eq!(ids, vec!["v1".to_string(), "v2".to_string()]);
    match videos.get_user_videos(&key, 601) {
        Step::Ready(list) => {
            let ids: Vec<String> = list.into_iter().map(|v| v.id).collect();
            assert_eq!(ids, vec!["v1".to_string(), "v2".to_string()]);
        }
        _ => panic!("expected the cached list"),
    }
    assert!(matches!(videos.get_user_videos(&key, 602), Step::Fetch));
}

#[test]
fn unknown_channel_is_not_cached() {
    let mut resolver = ChannelResolver::new();
    let key = handle("doesnotexist123");
    assert!(matches!(resolver.get_user_id(&key, 0), Step::Fetch));
    let (r, _) = resolver.user_id_fetched(&key, Ok(None), 1);
    assert_eq!(r.err(), Some(TwitchRssError::UnknownChannel("doesnotexist123".to_string())));
    assert!(matches!(resolver.get_user_id(&key, 2), Step::Fetch));
}

#[test]
fn known_channel_is_cached() {
    let mut resolver = ChannelResolver::new();
    let key = handle("somechannel");
    assert!(matches!(resolver.get_user_id(&key, 0), Step::Fetch));
    let (r, _) = resolver.user_id_fetched(&key, Ok(Some(user("42"))), 1);
    assert_eq!(r.unwrap().id, "42");
    match resolver.get_user_id(&handle("somechannel"), 2) {
        Step::Ready(id) => assert_eq!(id.id, "42"),
        _ => panic!("expected the cached id"),
    }
    assert!(matches!(resolver.get_user_id(&handle("otherchannel"), 2), Step::Fetch));
}

#[test]
fn resolution_passes_errors_on() {
    let r = resolution_outcome(&handle("x"), Err(TwitchRssError::Unauthorized));
    assert_eq!(r.err(), Some(TwitchRssError::Unauthorized));
}

#[test]
fn expiry_saturates_at_clock_end() {
    let mut c: Coalescer<UserId, UserId> = Coalescer::new(10);
    let key = user("1");
    assert_eq!(c.begin(&key, u64::MAX - 5), Admission::Lead);
    c.complete(&key, Some(user("v")), u64::MAX - 5);
    assert!(c.lookup(&key, u64::MAX - 1).is_some());
    assert!(c.lookup(&key, u64::MAX).is_none());
}

#[test]
fn pending_key_has_no_value() {
    let mut c: Coalescer<UserId, UserId> = Coalescer::new(10);
    let key = user("1");
    assert_eq!(c.begin(&key, 0), Admission::Lead);
    assert!(c.lookup(&key, 0).is_none());
    assert_eq!(c.time_to_live(), 10);
}

#[test]
fn handle_folds_case() {
    assert_eq!(ChannelHandle::from_login("SomeChannel").login, "somechannel");
}

#[test]
fn error_status_and_message() {
    let unknown = TwitchRssError::UnknownChannel("abc".to_string());
    assert_eq!(unknown.status_code(), 404);
    assert_eq!(unknown.message(), "UnknownChannel(abc)");
    assert_eq!(TwitchRssError::Token("x".to_string()).status_code(), 500);
    assert_eq!(TwitchRssError::Token("x".to_string()).message(), "Token(x)");
    assert_eq!(TwitchRssError::Unauthorized.status_code(), 500);
    assert_eq!(TwitchRssError::Unauthorized.message(), "Unauthorized");
    assert_eq!(TwitchRssError::RequestError("e".to_string()).status_code(), 500);
    assert_eq!(TwitchRssError::RequestError("e".to_string()).message(), "RequestError(e)");
    assert_eq!(TwitchRssError::FeedBuild("d".to_string()).status_code(), 500);
    assert_eq!(TwitchRssError::FeedBuild("d".to_string()).message(), "FeedBuild(d)");
}

#[test]
fn helix_errors_are_classified() {
    assert_eq!(handle_helix_error(Some(401), "no".to_string()), TwitchRssError::Unauthorized);
    assert_eq!(
        handle_helix_error(Some(500), "boom".to_string()),
        TwitchRssError::RequestError("boom".to_string())
    );
    assert_eq!(
        handle_helix_error(None, "dns".to_string()),
        TwitchRssError::RequestError("dns".to_string())
    );
}
