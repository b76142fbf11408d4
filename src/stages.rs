use vstd::prelude::*;

use crate::coalescer::{admission_step, ok_value, same_outcome, settle, step_agrees, waiters_of, Coalescer, Step};
use crate::error::TwitchRssError;
use crate::model::{AccessToken, ChannelHandle, CredentialPair, UserId, VideoRecord};

verus! {

/// How long an access token is reused, in seconds.
pub const TOKEN_TTL_SECS: u64 = 1200;

/// How long a login's user id is reused, in seconds.
pub const USER_ID_TTL_SECS: u64 = 600;

/// How long a user's video list is reused, in seconds.
pub const VIDEOS_TTL_SECS: u64 = 600;

/// The outcome of a credential exchange, as the token stage reports it.
pub open spec fn token_outcome_of(exchanged: Result<AccessToken, String>) -> Result<
    AccessToken,
    TwitchRssError,
> {
    match exchanged {
        Ok(t) => Ok(t),
        Err(text) => Err(TwitchRssError::Token(text)),
    }
}

/// The outcome of a login lookup: a login that names no user is an error, so that it
/// is never cached.
pub open spec fn resolution_of(
    handle: ChannelHandle,
    looked_up: Result<Option<UserId>, TwitchRssError>,
) -> Result<UserId, TwitchRssError> {
    match looked_up {
        Ok(Some(id)) => Ok(id),
        Ok(None) => Err(TwitchRssError::UnknownChannel(handle.login)),
        Err(e) => Err(e),
    }
}

/// The outcome of a credential exchange as the token stage reports it.
pub fn token_outcome(exchanged: Result<AccessToken, String>) -> (r: Result<
    AccessToken,
    TwitchRssError,
>)
    ensures
        r == token_outcome_of(exchanged),
{
    match exchanged {
        Ok(t) => Ok(t),
        Err(text) => Err(TwitchRssError::Token(text)),
    }
}

/// The user id for `handle` from the platform's answer.
pub fn resolution_outcome(
    handle: &ChannelHandle,
    looked_up: Result<Option<UserId>, TwitchRssError>,
) -> (r: Result<UserId, TwitchRssError>)
    ensures
        r == resolution_of(*handle, looked_up),
{
    match looked_up {
        Ok(Some(id)) => Ok(id),
        Ok(None) => Err(TwitchRssError::UnknownChannel(handle.login.clone())),
        Err(e) => Err(e),
    }
}

/// App access tokens, one per credential pair, reused for [`TOKEN_TTL_SECS`].
///
/// A token that a later call finds revoked (`Unauthorized`) is not evicted: like every
/// stage, this one never reads the errors it hands on, and a new token is asked for
/// once the stored one expires.
pub struct TokenManager {
    pub cache: Coalescer<CredentialPair, AccessToken>,
}

impl TokenManager {
    pub open spec fn wf(&self) -> bool {
        self.cache.wf() && self.cache.ttl() == TOKEN_TTL_SECS
    }

    pub fn new() -> (r: Self)
        ensures
            r.wf(),
            r.cache.slots().is_empty(),
    {
        TokenManager { cache: Coalescer::new(TOKEN_TTL_SECS) }
    }

    /// A caller needs a token for `credentials` at `now`.
    pub fn get_token(&mut self, credentials: &CredentialPair, now: u64) -> (r: Step<AccessToken>)
        requires
            old(self).wf(),
        ensures
            final(self).wf(),
            final(self).cache.slots() == admission_step(
                old(self).cache.slots(),
                credentials@,
                now,
            ).0,
            step_agrees(old(self).cache.slots(), credentials@, now, r),
    {
        self.cache.acquire(credentials, now)
    }

    /// The credential exchange for `credentials` ended at `now`.
    pub fn token_fetched(
        &mut self,
        credentials: &CredentialPair,
        exchanged: Result<AccessToken, String>,
        now: u64,
    ) -> (r: (Result<AccessToken, TwitchRssError>, u64))
        requires
            old(self).wf(),
        ensures
            final(self).wf(),
            final(self).cache.slots() == settle(
                old(self).cache.slots(),
                credentials@,
                ok_value(token_outcome_of(exchanged)),
                now,
                TOKEN_TTL_SECS,
            ),
            same_outcome(r.0, token_outcome_of(exchanged)),
            r.1 == waiters_of(old(self).cache.slots(), credentials@),
    {
        self.cache.finish(credentials, token_outcome(exchanged), now)
    }
}

/// User ids by login, reused for [`USER_ID_TTL_SECS`]; unknown logins are not cached.
pub struct ChannelResolver {
    pub cache: Coalescer<ChannelHandle, UserId>,
}

impl ChannelResolver {
    pub open spec fn wf(&self) -> bool {
        self.cache.wf() && self.cache.ttl() == USER_ID_TTL_SECS
    }

    pub fn new() -> (r: Self)
        ensures
            r.wf(),
            r.cache.slots().is_empty(),
    {
        ChannelResolver { cache: Coalescer::new(USER_ID_TTL_SECS) }
    }

    /// A caller needs the user id of `handle` at `now`.
    pub fn get_user_id(&mut self, handle: &ChannelHandle, now: u64) -> (r: Step<UserId>)
        requires
            old(self).wf(),
        ensures
            final(self).wf(),
            final(self).cache.slots() == admission_step(
                old(self).cache.slots(),
                handle@,
                now,
            ).0,
            step_agrees(old(self).cache.slots(), handle@, now, r),
    {
        self.cache.acquire(handle, now)
    }

    /// The lookup of `handle` ended at `now`.
    pub fn user_id_fetched(
        &mut self,
        handle: &ChannelHandle,
        looked_up: Result<Option<UserId>, TwitchRssError>,
        now: u64,
    ) -> (r: (Result<UserId, TwitchRssError>, u64))
        requires
            old(self).wf(),
        ensures
            final(self).wf(),
            final(self).cache.slots() == settle(
                old(self).cache.slots(),
                handle@,
                ok_value(resolution_of(*handle, looked_up)),
                now,
                USER_ID_TTL_SECS,
            ),
            same_outcome(r.0, resolution_of(*handle, looked_up)),
            r.1 == waiters_of(old(self).cache.slots(), handle@),
    {
        let outcome = resolution_outcome(handle, looked_up);
        self.cache.finish(handle, outcome, now)
    }
}

/// Video lists by user id, reused for [`VIDEOS_TTL_SECS`], in upstream order.
pub struct VideoLister {
    pub cache: Coalescer<UserId, Vec<VideoRecord>>,
}

impl VideoLister {
    pub open spec fn wf(&self) -> bool {
        self.cache.wf() && self.cache.ttl() == VIDEOS_TTL_SECS
    }

    pub fn new() -> (r: Self)
        ensures
            r.wf(),
            r.cache.slots().is_empty(),
    {
        VideoLister { cache: Coalescer::new(VIDEOS_TTL_SECS) }
    }

    /// A caller needs the videos of `user` at `now`.
    pub fn get_user_videos(&mut self, user: &UserId, now: u64) -> (r: Step<Vec<VideoRecord>>)
        requires
            old(self).wf(),
        ensures
            final(self).wf(),
            final(self).cache.slots() == admission_step(
                old(self).cache.slots(),
                user@,
                now,
            ).0,
            step_agrees(old(self).cache.slots(), user@, now, r),
    {
        self.cache.acquire(user, now)
    }

    /// The listing of `user`'s videos ended at `now`.
    pub fn videos_fetched(
        &mut self,
        user: &UserId,
        listed: Result<Vec<VideoRecord>, TwitchRssError>,
        now: u64,
    ) -> (r: (Result<Vec<VideoRecord>, TwitchRssError>, u64))
        requires
            old(self).wf(),
        ensures
            final(self).wf(),
            final(self).cache.slots() == settle(
                old(self).cache.slots(),
                user@,
                ok_value(listed),
                now,
                VIDEOS_TTL_SECS,
            ),
            same_outcome(r.0, listed),
            r.1 == waiters_of(old(self).cache.slots(), user@),
    {
        self.cache.finish(user, listed, now)
    }
}

} // verus!
