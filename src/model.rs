use vstd::prelude::*;

use crate::coalescer::{CacheKey, Duplicate};

verus! {

/// The application's credentials at the authorization server.
pub struct CredentialPair {
    pub client_id: String,
    pub client_secret: String,
}

/// A channel's login name, as it appears in a request path.
pub struct ChannelHandle {
    pub login: String,
}

/// The platform's stable identifier of a user.
#[derive(Clone, Debug)]
pub struct UserId {
    pub id: String,
}

/// An app access token, opaque to everything but the upstream calls.
#[derive(Clone, Debug)]
pub struct AccessToken {
    pub value: String,
}

/// One video of a channel, as the platform lists it.
#[derive(Clone, Debug)]
pub struct VideoRecord {
    pub id: String,
    pub title: String,
    pub url: String,
    /// Holds `%{width}` and `%{height}` placeholders.
    pub thumbnail_url: String,
    /// May be empty.
    pub description: String,
    /// RFC 3339.
    pub created_at: String,
}

/// The lower-case form of `s`, as Unicode defines it.
pub uninterp spec fn lower_of(s: Seq<char>) -> Seq<char>;

/// Relies on `str::to_lowercase`: the result depends on the characters alone.
#[verifier::external_body]
fn lowercase(s: &str) -> (r: String)
    ensures
        r@ == lower_of(s@),
{
    s.to_lowercase()
}

impl ChannelHandle {
    /// The handle for a login as a request spells it: logins compare without regard
    /// to case, so the handle holds the lower-case form.
    pub fn from_login(login: &str) -> (r: Self)
        ensures
            r@ == lower_of(login@),
    {
        ChannelHandle { login: lowercase(login) }
    }
}

impl View for CredentialPair {
    type V = (Seq<char>, Seq<char>);

    open spec fn view(&self) -> (Seq<char>, Seq<char>) {
        (self.client_id@, self.client_secret@)
    }
}

impl View for ChannelHandle {
    type V = Seq<char>;

    open spec fn view(&self) -> Seq<char> {
        self.login@
    }
}

impl View for UserId {
    type V = Seq<char>;

    open spec fn view(&self) -> Seq<char> {
        self.id@
    }
}

impl View for AccessToken {
    type V = Seq<char>;

    open spec fn view(&self) -> Seq<char> {
        self.value@
    }
}

impl View for VideoRecord {
    type V = VideoRecord;

    open spec fn view(&self) -> VideoRecord {
        *self
    }
}

impl CacheKey for CredentialPair {
    fn same_key(&self, other: &Self) -> (r: bool) {
        self.client_id == other.client_id && self.client_secret == other.client_secret
    }

    fn copy_key(&self) -> (r: Self) {
        CredentialPair { client_id: self.client_id.clone(), client_secret: self.client_secret.clone() }
    }
}

impl CacheKey for ChannelHandle {
    fn same_key(&self, other: &Self) -> (r: bool) {
        self.login == other.login
    }

    fn copy_key(&self) -> (r: Self) {
        ChannelHandle { login: self.login.clone() }
    }
}

impl CacheKey for UserId {
    fn same_key(&self, other: &Self) -> (r: bool) {
        self.id == other.id
    }

    fn copy_key(&self) -> (r: Self) {
        UserId { id: self.id.clone() }
    }
}

impl Duplicate for UserId {
    fn duplicate(&self) -> (r: Self) {
        UserId { id: self.id.clone() }
    }
}

impl Duplicate for AccessToken {
    fn duplicate(&self) -> (r: Self) {
        AccessToken { value: self.value.clone() }
    }
}

impl Duplicate for VideoRecord {
    fn duplicate(&self) -> (r: Self) {
        VideoRecord {
            id: self.id.clone(),
            title: self.title.clone(),
            url: self.url.clone(),
            thumbnail_url: self.thumbnail_url.clone(),
            description: self.description.clone(),
            created_at: self.created_at.clone(),
        }
    }
}

impl Duplicate for Vec<VideoRecord> {
    fn duplicate(&self) -> (r: Self) {
        let mut out: Vec<VideoRecord> = Vec::new();
        let mut i: usize = 0;
        while i < self.len()
            invariant
                i <= self.len(),
                out@ == self@.subrange(0, i as int),
            decreases self.len() - i,
        {
            out.push(self[i].duplicate());
            i = i + 1;
            assert(out@ =~= self@.subrange(0, i as int));
        }
        assert(self@.subrange(0, self.len() as int) =~= self@);
        out
    }
}

} // verus!
