use vstd::prelude::*;

use crate::error::TwitchRssError;
use crate::model::VideoRecord;

verus! {

/// One entry of the syndication feed.
pub struct FeedItem {
    pub guid: String,
    /// RFC 2822, in UTC.
    pub pub_date: String,
    pub title: String,
    pub link: String,
    /// HTML.
    pub description: String,
}

/// A channel's feed: its title and one item per video, in upstream order.
pub struct Feed {
    pub title: String,
    pub items: Vec<FeedItem>,
}

/// An item's fields: guid, publication date, title, link and description.
pub type ItemFields = (Seq<char>, Seq<char>, Seq<char>, Seq<char>, Seq<char>);

impl View for FeedItem {
    type V = ItemFields;

    open spec fn view(&self) -> ItemFields {
        (self.guid@, self.pub_date@, self.title@, self.link@, self.description@)
    }
}

/// `s` with every occurrence of `pat`, scanned left to right without overlap, replaced
/// by `rep`. An empty `pat` occurs before each char and at the end.
pub open spec fn replace_all(s: Seq<char>, pat: Seq<char>, rep: Seq<char>) -> Seq<char>
    decreases s.len(),
{
    if pat.len() == 0 {
        if s.len() == 0 {
            rep
        } else {
            rep + seq![s[0]] + replace_all(s.subrange(1, s.len() as int), pat, rep)
        }
    } else if s.len() == 0 {
        s
    } else if pat.is_prefix_of(s) {
        rep + replace_all(s.subrange(pat.len() as int, s.len() as int), pat, rep)
    } else {
        seq![s[0]] + replace_all(s.subrange(1, s.len() as int), pat, rep)
    }
}

/// The thumbnail address at 512 by 288 pixels.
pub open spec fn thumbnail_of(template: Seq<char>) -> Seq<char> {
    replace_all(replace_all(template, "%{width}"@, "512"@), "%{height}"@, "288"@)
}

/// The HTML description of a video: its thumbnail linking to the video, then the
/// platform's description when there is one, then always the title.
pub open spec fn description_of(v: VideoRecord) -> Seq<char> {
    "<a href=\""@ + v.url@ + "\"><img src=\""@ + thumbnail_of(v.thumbnail_url@) + "\" /></a>"@ + (
    if v.description@.len() == 0 {
        Seq::empty()
    } else {
        "<br />"@ + v.description@
    }) + "<br />"@ + v.title@
}

/// The feed item for `v`, published at `pub_date`.
pub open spec fn item_of(v: VideoRecord, pub_date: Seq<char>, item: FeedItem) -> bool {
    &&& item.guid@ == v.id@
    &&& item.pub_date@ == pub_date
    &&& item.title@ == v.title@
    &&& item.link@ == v.url@
    &&& item.description@ == description_of(v)
}

/// The title of the feed of the channel `name`.
pub open spec fn feed_title_of(name: Seq<char>) -> Seq<char> {
    name + " Twitch VODs"@
}

/// The fields of the item for `v` published at `pub_date`.
pub open spec fn item_fields_of(v: VideoRecord, pub_date: Seq<char>) -> ItemFields {
    (v.id@, pub_date, v.title@, v.url@, description_of(v))
}

/// The items of the feed of `videos`, when every creation time has an RFC 2822 form.
pub open spec fn feed_items_of(videos: Seq<VideoRecord>) -> Seq<ItemFields> {
    Seq::new(
        videos.len(),
        |i: int| item_fields_of(videos[i], rfc2822_of(videos[i].created_at@)->0),
    )
}

/// The RSS 2.0 document of a channel titled `title` with the items `items`, in order.
pub uninterp spec fn rss_xml_of(title: Seq<char>, items: Seq<ItemFields>) -> Seq<char>;

/// Relies on rss's `ItemBuilder`, `GuidBuilder` and `ChannelBuilder` to make the channel
/// and on its `Display` to write it as XML: the text depends on the fields alone.
#[verifier::external_body]
fn rss_channel_text(feed: &Feed) -> (r: String)
    ensures
        r@ == rss_xml_of(feed.title@, feed.items@.map_values(|i: FeedItem| i@)),
{
    let items: Vec<rss::Item> = feed.items.iter().map(|i| {
        rss::ItemBuilder::default().guid(rss::GuidBuilder::default().value(i.guid.clone()).build())
            .pub_date(i.pub_date.clone()).title(i.title.clone()).link(i.link.clone())
            .description(i.description.clone()).build()
    }).collect();
    rss::ChannelBuilder::default().title(feed.title.clone()).items(items).build().to_string()
}

/// What the platform's RFC 3339 timestamp `ts` reads as in RFC 2822, in UTC; `None`
/// when `ts` is no valid RFC 3339 timestamp, when the instant moved to UTC leaves the
/// years 1 to 9999 (as `9999-12-31T23:59:59-01:00` does), or when it has no RFC 2822
/// form.
pub uninterp spec fn rfc2822_of(ts: Seq<char>) -> Option<Seq<char>>;

/// Relies on twitch_api2's `Timestamp::new` (validates RFC 3339, so that
/// `TimestampRef::to_fixed_offset` cannot fail), time's `OffsetDateTime::checked_to_offset`
/// (`None` out of range) and `OffsetDateTime::format` with `Rfc2822`: the result depends
/// on `ts` alone.
#[verifier::external_body]
fn rfc2822_from_rfc3339(ts: &String) -> (r: Option<String>)
    ensures
        match r {
            Some(d) => rfc2822_of(ts@) == Some(d@),
            None => rfc2822_of(ts@) is None,
        },
{
    let stamp = twitch_api2::types::Timestamp::new(ts.clone()).ok()?;
    let utc = stamp.to_fixed_offset().checked_to_offset(time::UtcOffset::UTC)?;
    utc.format(&time::format_description::well_known::Rfc2822).ok()
}

/// Whether `pat` occurs in `s` at char position `i`.
fn occurs_at(s: &str, pat: &str, i: usize) -> (r: bool)
    requires
        i <= s@.len(),
    ensures
        r == pat@.is_prefix_of(s@.subrange(i as int, s@.len() as int)),
{
    let n = s.unicode_len();
    let m = pat.unicode_len();
    if m > n - i {
        return false;
    }
    let mut j: usize = 0;
    while j < m
        invariant
            n == s@.len(),
            m == pat@.len(),
            i + m <= n,
            j <= m,
            forall|k: int| 0 <= k < j ==> pat@[k] == s@[i + k],
        decreases m - j,
    {
        if s.get_char(i + j) != pat.get_char(j) {
            assert(pat@[j as int] != s@.subrange(i as int, n as int).subrange(0, m as int)[j as int]);
            return false;
        }
        j = j + 1;
    }
    assert(pat@ =~= s@.subrange(i as int, n as int).subrange(0, m as int));
    true
}

/// Replaces every occurrence of `pat` in `s` by `rep`.
pub fn replace_all_exec(s: &str, pat: &str, rep: &str) -> (r: String)
    ensures
        r@ == replace_all(s@, pat@, rep@),
{
    let n = s.unicode_len();
    let m = pat.unicode_len();
    let mut out = String::new();
    let mut i: usize = 0;
    assert(s@.subrange(0, n as int) =~= s@);
    while i < n
        invariant
            n == s@.len(),
            m == pat@.len(),
            i <= n,
            out@ + replace_all(s@.subrange(i as int, n as int), pat@, rep@) == replace_all(
                s@,
                pat@,
                rep@,
            ),
        decreases n - i,
    {
        let ghost t = s@.subrange(i as int, n as int);
        let ghost before = out@;
        if m == 0 {
            let c = s.substring_char(i, i + 1);
            out.append(rep);
            out.append(c);
            assert(c@ =~= seq![t[0]]);
            assert(t.subrange(1, t.len() as int) =~= s@.subrange(i + 1, n as int));
            i = i + 1;
            assert(before + (rep@ + c@ + replace_all(s@.subrange(i as int, n as int), pat@, rep@))
                =~= out@ + replace_all(s@.subrange(i as int, n as int), pat@, rep@));
        } else if occurs_at(s, pat, i) {
            out.append(rep);
            assert(t.subrange(m as int, t.len() as int) =~= s@.subrange(i + m, n as int));
            i = i + m;
            assert(before + (rep@ + replace_all(s@.subrange(i as int, n as int), pat@, rep@))
                =~= out@ + replace_all(s@.subrange(i as int, n as int), pat@, rep@));
        } else {
            let c = s.substring_char(i, i + 1);
            out.append(c);
            assert(c@ =~= seq![t[0]]);
            assert(t.subrange(1, t.len() as int) =~= s@.subrange(i + 1, n as int));
            i = i + 1;
            assert(before + (c@ + replace_all(s@.subrange(i as int, n as int), pat@, rep@))
                =~= out@ + replace_all(s@.subrange(i as int, n as int), pat@, rep@));
        }
    }
    assert(s@.subrange(n as int, n as int) =~= Seq::<char>::empty());
    if m == 0 {
        out.append(rep);
    } else {
        assert(out@ + Seq::<char>::empty() =~= out@);
    }
    out
}

/// The thumbnail address of `template` at 512 by 288 pixels.
pub fn render_thumbnail(template: &str) -> (r: String)
    ensures
        r@ == thumbnail_of(template@),
{
    let wide = replace_all_exec(template, "%{width}", "512");
    replace_all_exec(wide.as_str(), "%{height}", "288")
}

/// The HTML description of the video `input`.
pub fn build_description(input: &VideoRecord) -> (r: String)
    ensures
        r@ == description_of(*input),
{
    let thumbnail_url = render_thumbnail(input.thumbnail_url.as_str());
    let mut description = String::from_str("<a href=\"").concat(input.url.as_str()).concat(
        "\"><img src=\"",
    ).concat(thumbnail_url.as_str()).concat("\" /></a>");
    let ghost head = description@;
    // the platform's description, when there is one
    if !input.description.as_str().is_empty() {
        description.append("<br />");
        description.append(input.description.as_str());
    } else {
        assert(head + Seq::<char>::empty() =~= head);
    }
    // the title last, so that readers that only compare descriptions see renames
    description.append("<br />");
    description.append(input.title.as_str());
    assert(description@ =~= description_of(*input));
    description
}

/// The feed item for `input`, given its publication date in RFC 2822.
pub fn feed_item_from(input: &VideoRecord, pub_date: String) -> (r: FeedItem)
    ensures
        item_of(*input, pub_date@, r),
{
    FeedItem {
        guid: input.id.clone(),
        pub_date,
        title: input.title.clone(),
        link: input.url.clone(),
        description: build_description(input),
    }
}

/// The feed item for `input`; fails when its creation time has no RFC 2822 form.
pub fn video_to_rss_item(input: &VideoRecord) -> (r: Result<FeedItem, TwitchRssError>)
    ensures
        match rfc2822_of(input.created_at@) {
            Some(d) => r is Ok && item_of(*input, d, r->Ok_0),
            None => r == Err::<FeedItem, TwitchRssError>(
                TwitchRssError::FeedBuild(input.created_at),
            ),
        },
{
    match rfc2822_from_rfc3339(&input.created_at) {
        Some(published) => Ok(feed_item_from(input, published)),
        None => Err(TwitchRssError::FeedBuild(input.created_at.clone())),
    }
}

/// The feed of the channel `name` from its videos, given each video's publication date
/// in RFC 2822.
pub fn feed_from_dated(name: &str, videos: &Vec<VideoRecord>, dates: &Vec<String>) -> (r: Feed)
    requires
        videos.len() == dates.len(),
    ensures
        r.title@ == feed_title_of(name@),
        r.items.len() == videos.len(),
        forall|i: int| 0 <= i < videos.len() ==> item_of(videos@[i], dates@[i]@, #[trigger] r.items@[i]),
{
    let mut items: Vec<FeedItem> = Vec::new();
    let mut i: usize = 0;
    while i < videos.len()
        invariant
            videos.len() == dates.len(),
            i <= videos.len(),
            items.len() == i,
            forall|k: int| 0 <= k < i ==> item_of(videos@[k], dates@[k]@, #[trigger] items@[k]),
        decreases videos.len() - i,
    {
        items.push(feed_item_from(&videos[i], dates[i].clone()));
        i = i + 1;
    }
    Feed { title: String::from_str(name).concat(" Twitch VODs"), items }
}

/// The feed of the channel `name`: one item per video, in the order given. Fails with
/// the first creation time that has no RFC 2822 form.
pub fn build_feed(name: &str, videos: &Vec<VideoRecord>) -> (r: Result<Feed, TwitchRssError>)
    ensures
        match r {
            Ok(feed) => {
                &&& feed.title@ == feed_title_of(name@)
                &&& feed.items.len() == videos.len()
                &&& forall|i: int|
                    0 <= i < videos.len() ==> #[trigger] rfc2822_of(videos@[i].created_at@) is Some
                        && item_of(
                        videos@[i],
                        rfc2822_of(videos@[i].created_at@)->0,
                        feed.items@[i],
                    )
            },
            Err(e) => exists|i: int|
                0 <= i < videos.len() && rfc2822_of(#[trigger] videos@[i].created_at@) is None
                    && e == TwitchRssError::FeedBuild(videos@[i].created_at) && forall|k: int|
                    0 <= k < i ==> rfc2822_of(#[trigger] videos@[k].created_at@) is Some,
        },
{
    let mut dates: Vec<String> = Vec::new();
    let mut i: usize = 0;
    while i < videos.len()
        invariant
            i <= videos.len(),
            dates.len() == i,
            forall|k: int|
                0 <= k < i ==> #[trigger] rfc2822_of(videos@[k].created_at@) == Some(dates@[k]@),
        decreases videos.len() - i,
    {
        match rfc2822_from_rfc3339(&videos[i].created_at) {
            Some(d) => dates.push(d),
            None => {
                assert(forall|k: int| 0 <= k < i ==> rfc2822_of(#[trigger] videos@[k].created_at@) is Some);
                return Err(TwitchRssError::FeedBuild(videos[i].created_at.clone()));
            },
        }
        i = i + 1;
    }
    Ok(feed_from_dated(name, videos, &dates))
}

/// The RSS document of the channel `name` from its videos, in the order given. Fails
/// with the first creation time that has no RFC 2822 form.
pub fn channel_feed(name: &str, videos: &Vec<VideoRecord>) -> (r: Result<String, TwitchRssError>)
    ensures
        match r {
            Ok(text) => {
                &&& forall|i: int|
                    0 <= i < videos.len() ==> #[trigger] rfc2822_of(videos@[i].created_at@) is Some
                &&& text@ == rss_xml_of(feed_title_of(name@), feed_items_of(videos@))
            },
            Err(e) => exists|i: int|
                0 <= i < videos.len() && rfc2822_of(#[trigger] videos@[i].created_at@) is None
                    && e == TwitchRssError::FeedBuild(videos@[i].created_at) && forall|k: int|
                    0 <= k < i ==> rfc2822_of(#[trigger] videos@[k].created_at@) is Some,
        },
{
    let feed = build_feed(name, videos)?;
    assert(feed.items@.map_values(|i: FeedItem| i@) =~= feed_items_of(videos@)) by {
        assert forall|i: int| 0 <= i < videos.len() implies #[trigger] feed.items@[i]@ == item_fields_of(
            videos@[i],
            rfc2822_of(videos@[i].created_at@)->0,
        ) by {
            assert(rfc2822_of(videos@[i].created_at@) is Some);
        }
    }
    Ok(rss_channel_text(&feed))
}

} // verus!
