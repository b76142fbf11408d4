use twitch_vod_rss::coalescer::Step;
use twitch_vod_rss::error::TwitchRssError;
use twitch_vod_rss::feed::{
    build_description, build_feed, channel_feed, feed_from_dated, feed_item_from, render_thumbnail,
    replace_all_exec, video_to_rss_item,
};
use twitch_vod_rss::model::{AccessToken, ChannelHandle, CredentialPair, UserId, VideoRecord};
use twitch_vod_rss::stages::{ChannelResolver, TokenManager, VideoLister};

fn record(description: &str) -> VideoRecord {
    VideoRecord {
        id: "v1".to_string(),
        title: "T".to_string(),
        url: "https://vod/v1".to_string(),
        thumbnail_url: "https://th/%{width}x%{height}.jpg".to_string(),
        description: description.to_string(),
        created_at: "2023-01-01T00:00:00Z".to_string(),
    }
}

#[test]
fn thumbnail_placeholders_are_filled() {
    assert_eq!(render_thumbnail("https://x/%{width}x%{height}.jpg"), "https://x/512x288.jpg");
}

#[test]
fn thumbnail_without_placeholders_is_kept() {
    assert_eq!(render_thumbnail("https://x/a.jpg"), "https://x/a.jpg");
    assert_eq!(render_thumbnail(""), "");
}

#[test]
fn replace_all_replaces_every_occurrence() {
    assert_eq!(replace_all_exec("aXbXXc", "X", "yy"), "ayybyyyyc");
    assert_eq!(replace_all_exec("aaaa", "aa", "b"), "bb");
    assert_eq!(replace_all_exec("aaa", "aa", "b"), "ba");
    assert_eq!(replace_all_exec("abc", "abcd", "z"), "abc");
    assert_eq!(replace_all_exec("", "x", "z"), "");
}

#[test]
fn description_without_platform_text() {
    assert_eq!(
        build_description(&record("")),
        "<a href=\"https://vod/v1\"><img src=\"https://th/512x288.jpg\" /></a><br />T"
    );
}

#[test]
fn description_with_platform_text() {
    assert_eq!(
        build_description(&record("about")),
        "<a href=\"https://vod/v1\"><img src=\"https://th/512x288.jpg\" /></a><br />about<br />T"
    );
}

#[test]
fn item_fields() {
    let item = video_to_rss_item(&record("")).unwrap();
    assert_eq!(item.guid, "v1");
    assert_eq!(item.link, "https://vod/v1");
    assert_eq!(item.title, "T");
    assert_eq!(item.pub_date, "Sun, 01 Jan 2023 00:00:00 +0000");
}

#[test]
fn item_date_is_converted_to_utc() {
    let mut v = record("");
    v.created_at = "2023-01-01T02:30:00+02:00".to_string();
    assert_eq!(video_to_rss_item(&v).unwrap().pub_date, "Sun, 01 Jan 2023 00:30:00 +0000");
}

#[test]
fn guid_is_stable_across_builds() {
    let a = video_to_rss_item(&record("")).unwrap();
    let b = video_to_rss_item(&record("")).unwrap();
    assert_eq!(a.guid, "v1");
    assert_eq!(a.guid, b.guid);
}

#[test]
fn invalid_timestamp_fails_feed_build() {
    let mut v = record("");
    v.created_at = "yesterday".to_string();
    assert_eq!(video_to_rss_item(&v).err(), Some(TwitchRssError::FeedBuild("yesterday".to_string())));
    let r = build_feed("chan", &vec![record(""), v]);
    assert_eq!(r.err(), Some(TwitchRssError::FeedBuild("yesterday".to_string())));
}

#[test]
fn item_from_given_date() {
    let item = feed_item_from(&record("d"), "Mon, 02 Jan 2023 00:00:00 +0000".to_string());
    assert_eq!(item.pub_date, "Mon, 02 Jan 2023 00:00:00 +0000");
    assert_eq!(item.guid, "v1");
}

#[test]
fn feed_keeps_order_and_titles_channel() {
    let mut second = record("");
    second.id = "v2".to_string();
    let feed = build_feed("somechannel", &vec![record(""), second]).unwrap();
    assert_eq!(feed.title, "somechannel Twitch VODs");
    let ids: Vec<&str> = feed.items.iter().map(|i| i.guid.as_str()).collect();
    assert_eq!(ids, vec!["v1", "v2"]);
    let empty = build_feed("quiet", &Vec::new()).unwrap();
    assert_eq!(empty.title, "quiet Twitch VODs");
    assert!(empty.items.is_empty());
}

#[test]
fn feed_from_dated_pairs_dates() {
    let feed = feed_from_dated("c", &vec![record("")], &vec!["D".to_string()]);
    assert_eq!(feed.items[0].pub_date, "D");
}

#[test]
fn end_to_end_feed() {
    let credentials =
        CredentialPair { client_id: "id".to_string(), client_secret: "secret".to_string() };
    let mut tokens = TokenManager::new();
    let mut resolver = ChannelResolver::new();
    let mut lister = VideoLister::new();
    assert!(matches!(tokens.get_token(&credentials, 0), Step::Fetch));
    let (token, _) =
        tokens.token_fetched(&credentials, Ok(AccessToken { value: "tok".to_string() }), 0);
    assert!(token.is_ok());
    let handle = ChannelHandle::from_login("somechannel");
    assert!(matches!(resolver.get_user_id(&handle, 0), Step::Fetch));
    let (id, _) = resolver.user_id_fetched(&handle, Ok(Some(UserId { id: "42".to_string() })), 0);
    let id = id.unwrap();
    assert_eq!(id.id, "42");
    assert!(matches!(lister.get_user_videos(&id, 0), Step::Fetch));
    let (videos, _) = lister.videos_fetched(&id, Ok(vec![record("")]), 0);
    let feed = build_feed("somechannel", &videos.unwrap()).unwrap();
    assert_eq!(feed.items.len(), 1);
    assert_eq!(feed.items[0].guid, "v1");
    assert_eq!(feed.items[0].link, "https://vod/v1");
    assert_eq!(
        feed.items[0].description,
        "<a href=\"https://vod/v1\"><img src=\"https://th/512x288.jpg\" /></a><br />T"
    );
}

#[test]
fn channel_feed_renders_rss() {
    let text = channel_feed("somechannel", &vec![record("")]).unwrap();
    assert!(text.starts_with("<?xml"));
    assert!(text.contains("<rss version=\"2.0\">"));
    assert!(text.contains("<title>somechannel Twitch VODs</title>"));
    assert!(text.contains("<link>https://vod/v1</link>"));
    assert!(text.contains("v1</guid>"));
    assert!(text.contains("<pubDate>Sun, 01 Jan 2023 00:00:00 +0000</pubDate>"));
    assert!(text.contains("512x288"));
}

#[test]
fn channel_feed_reports_bad_dates() {
    let mut v = record("");
    v.created_at = "not a date".to_string();
    assert_eq!(
        channel_feed("c", &vec![v]).err(),
        Some(TwitchRssError::FeedBuild("not a date".to_string()))
    );
}

#[test]
fn replace_all_with_empty_pattern_matches_std() {
    assert_eq!(replace_all_exec("ab", "", "-"), "ab".replace("", "-"));
    assert_eq!(replace_all_exec("ab", "", "-"), "-a-b-");
    assert_eq!(replace_all_exec("", "", "-"), "-");
}

#[test]
fn date_past_year_9999_in_utc_fails_feed_build() {
    let mut v = record("");
    v.created_at = "9999-12-31T23:59:59-01:00".to_string();
    assert_eq!(
        video_to_rss_item(&v).err(),
        Some(TwitchRssError::FeedBuild("9999-12-31T23:59:59-01:00".to_string()))
    );
    v.created_at = "9999-12-31T23:59:59+01:00".to_string();
    assert_eq!(video_to_rss_item(&v).unwrap().pub_date, "Fri, 31 Dec 9999 22:59:59 +0000");
}
