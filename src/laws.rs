use vstd::prelude::*;

use crate::coalescer::{
    admission_step, expiry, is_fresh, is_pending, ok_value, settle, stored_value, waiters_of,
    Admission, Slot,
};
use crate::error::TwitchRssError;
use crate::feed::{description_of, item_of, thumbnail_of, FeedItem};
use crate::model::{ChannelHandle, UserId, VideoRecord};
use crate::stages::resolution_of;

verus! {

/// The entries and the answers after callers ask for `k` at the instants `times`, one
/// after another, with no computation ending in between.
pub open spec fn admit_all<KV, V>(m: Map<KV, Slot<V>>, k: KV, times: Seq<u64>) -> (
    Map<KV, Slot<V>>,
    Seq<Admission>,
)
    decreases times.len(),
{
    if times.len() == 0 {
        (m, Seq::empty())
    } else {
        let (m1, answers) = admit_all(m, k, times.drop_last());
        let (m2, a) = admission_step(m1, k, times.last());
        (m2, answers.push(a))
    }
}

/// A value computed at `t` is served, without a new computation, to every caller that
/// asks before `t + ttl`; a caller asking at `t + ttl` or later is told to compute it
/// again.
pub proof fn lemma_fresh_until_expiry<KV, V>(
    m: Map<KV, Slot<V>>,
    k: KV,
    v: V,
    t: u64,
    ttl: u64,
    later: u64,
)
    requires
        t + ttl <= u64::MAX,
    ensures
        later < t + ttl ==> admission_step(settle(m, k, Some(v), t, ttl), k, later) == (
        settle(m, k, Some(v), t, ttl),
        Admission::Cached,
        ) && stored_value(settle(m, k, Some(v), t, ttl), k) == Some(v),
        later >= t + ttl ==> admission_step(settle(m, k, Some(v), t, ttl), k, later).1
            == Admission::Lead,
{
    assert(expiry(t, ttl) == t + ttl);
}

/// Of callers that ask for a key with no fresh value and no computation running, the
/// first is told to compute it and every later one, until the computation ends, to
/// wait; when it ends, all the waiting callers are released with its outcome.
pub proof fn lemma_single_flight<KV, V>(m: Map<KV, Slot<V>>, k: KV, times: Seq<u64>)
    requires
        times.len() >= 1,
        times.len() <= u64::MAX,
        !is_fresh(m, k, times[0]),
        !is_pending(m, k),
    ensures
        admit_all(m, k, times).1.len() == times.len(),
        admit_all(m, k, times).1[0] == Admission::Lead,
        forall|i: int| 1 <= i < times.len() ==> #[trigger] admit_all(m, k, times).1[i] == Admission::Join,
        is_pending(admit_all(m, k, times).0, k),
        waiters_of(admit_all(m, k, times).0, k) == times.len() - 1,
    decreases times.len(),
{
    let (m1, answers) = admit_all(m, k, times.drop_last());
    if times.len() == 1 {
        assert(times.drop_last().len() == 0);
        assert(times.last() == times[0]);
    } else {
        let prefix = times.drop_last();
        assert(prefix[0] == times[0]);
        lemma_single_flight(m, k, prefix);
        assert(!is_fresh(m1, k, times.last()));
    }
}

/// A failed computation stores nothing: the next caller for the key is told to compute
/// it again, whenever it asks.
pub proof fn lemma_failure_not_cached<KV, V>(m: Map<KV, Slot<V>>, k: KV, t: u64, ttl: u64, later: u64)
    ensures
        !settle(m, k, None, t, ttl).contains_key(k),
        admission_step(settle(m, k, None::<V>, t, ttl), k, later).1 == Admission::Lead,
{
}

/// A login that names no user gives `UnknownChannel`, and nothing is cached for it: the
/// next request for it asks the platform again.
pub proof fn lemma_unknown_channel_not_cached(
    m: Map<Seq<char>, Slot<UserId>>,
    handle: ChannelHandle,
    t: u64,
    ttl: u64,
    later: u64,
)
    ensures
        resolution_of(handle, Ok(None)) == Err::<UserId, TwitchRssError>(
            TwitchRssError::UnknownChannel(handle.login),
        ),
        admission_step(
            settle(m, handle@, ok_value(resolution_of(handle, Ok(None))), t, ttl),
            handle@,
            later,
        ).1 == Admission::Lead,
{
}

/// The markup that links a video's thumbnail to the video.
pub open spec fn thumbnail_anchor(v: VideoRecord) -> Seq<char> {
    "<a href=\""@ + v.url@ + "\"><img src=\""@ + thumbnail_of(v.thumbnail_url@) + "\" /></a>"@
}

/// A video's description is its thumbnail anchor, then a line break and the platform's
/// description when that is not empty, then a line break and the title.
pub proof fn lemma_description_layout(v: VideoRecord)
    ensures
        v.description@.len() == 0 ==> description_of(v) == thumbnail_anchor(v) + "<br />"@
            + v.title@,
        v.description@.len() > 0 ==> description_of(v) == thumbnail_anchor(v) + "<br />"@
            + v.description@ + "<br />"@ + v.title@,
{
    if v.description@.len() == 0 {
        assert(thumbnail_anchor(v) + Seq::<char>::empty() =~= thumbnail_anchor(v));
    } else {
        assert(description_of(v) =~= thumbnail_anchor(v) + "<br />"@ + v.description@ + "<br />"@
            + v.title@);
    }
}

/// Two items built from one video carry the same guid, the video's id, whatever dates
/// they were built with.
pub proof fn lemma_guid_stable(v: VideoRecord, d1: Seq<char>, d2: Seq<char>, a: FeedItem, b: FeedItem)
    requires
        item_of(v, d1, a),
        item_of(v, d2, b),
    ensures
        a.guid@ == v.id@,
        a.guid@ == b.guid@,
        a.description@ == b.description@,
{
}

} // verus!
