use vstd::prelude::*;

verus! {

/// Why a request for a channel's id or feed failed.
#[derive(Debug, Clone, PartialEq, Eq)]
pub enum TwitchRssError {
    /// The credential exchange failed; holds the upstream error text.
    Token(String),
    /// No user has this login; holds the login.
    UnknownChannel(String),
    /// The platform rejected the access token.
    Unauthorized,
    /// Any other failure of an upstream call; holds its text.
    RequestError(String),
    /// The feed could not be built from the videos; holds the offending value.
    FeedBuild(String),
}

pub const STATUS_NOT_FOUND: u16 = 404;

pub const STATUS_UNAUTHORIZED: u16 = 401;

pub const STATUS_INTERNAL_SERVER_ERROR: u16 = 500;

/// The HTTP status that answers a request failing with `e`.
pub open spec fn status_of(e: TwitchRssError) -> u16 {
    match e {
        TwitchRssError::UnknownChannel(_) => STATUS_NOT_FOUND,
        _ => STATUS_INTERNAL_SERVER_ERROR,
    }
}

/// The text that describes `e` in a response body.
pub open spec fn message_of(e: TwitchRssError) -> Seq<char> {
    match e {
        TwitchRssError::Token(t) => "Token("@ + t@ + ")"@,
        TwitchRssError::UnknownChannel(c) => "UnknownChannel("@ + c@ + ")"@,
        TwitchRssError::Unauthorized => "Unauthorized"@,
        TwitchRssError::RequestError(t) => "RequestError("@ + t@ + ")"@,
        TwitchRssError::FeedBuild(t) => "FeedBuild("@ + t@ + ")"@,
    }
}

/// The error for a failed platform call: `Unauthorized` when the platform answered
/// 401, otherwise the call's error text.
pub open spec fn upstream_error_of(status: Option<u16>, text: String) -> TwitchRssError {
    if status == Some(STATUS_UNAUTHORIZED) {
        TwitchRssError::Unauthorized
    } else {
        TwitchRssError::RequestError(text)
    }
}

fn wrapped(opening: &str, inner: &String) -> (r: String)
    ensures
        r@ == opening@ + inner@ + ")"@,
{
    String::from_str(opening).concat(inner.as_str()).concat(")")
}

impl TwitchRssError {
    pub fn status_code(&self) -> (r: u16)
        ensures
            r == status_of(*self),
    {
        match self {
            TwitchRssError::UnknownChannel(_) => STATUS_NOT_FOUND,
            _ => STATUS_INTERNAL_SERVER_ERROR,
        }
    }

    pub fn message(&self) -> (r: String)
        ensures
            r@ == message_of(*self),
    {
        match self {
            TwitchRssError::Token(t) => wrapped("Token(", t),
            TwitchRssError::UnknownChannel(c) => wrapped("UnknownChannel(", c),
            TwitchRssError::Unauthorized => String::from_str("Unauthorized"),
            TwitchRssError::RequestError(t) => wrapped("RequestError(", t),
            TwitchRssError::FeedBuild(t) => wrapped("FeedBuild(", t),
        }
    }
}

/// Classifies a failed platform call from the HTTP status it got, if any, and its
/// error text.
pub fn handle_helix_error(status: Option<u16>, text: String) -> (r: TwitchRssError)
    ensures
        r == upstream_error_of(status, text),
{
    match status {
        Some(s) => {
            if s == STATUS_UNAUTHORIZED {
                TwitchRssError::Unauthorized
            } else {
                TwitchRssError::RequestError(text)
            }
        },
        None => TwitchRssError::RequestError(text),
    }
}

} // verus!
