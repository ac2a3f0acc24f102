//! A second client of the key-value store, used by the counter-based rate limit: it
//! counts requests with an increment and starts the counting window on the first.
use vstd::prelude::*;
use super::open_client;
use super::redis_url_opens;

verus! {

/// A client of the key-value store that counts requests.
pub struct RedisService {
    client: ::redis::Client,
    url: Ghost<Seq<char>>,
}

impl RedisService {
    /// The connection URL the client was opened on.
    pub closed spec fn url(&self) -> Seq<char> {
        self.url@
    }

    /// The client the service issues its commands through.
    pub closed spec fn handle(&self) -> ::redis::Client {
        self.client
    }

    /// Opens a client on `url`; the URL must be one the client accepts.
    pub fn new(url: &str) -> (res: Self)
        requires
            redis_url_opens(url@),
        ensures
            res.url() == url@,
    {
        RedisService { client: open_client(url).unwrap(), url: Ghost(url@) }
    }

    /// Opens a client on `url`, or gives `None` when the URL is refused.
    pub fn open(url: &str) -> (res: Option<Self>)
        ensures
            res is Some <==> redis_url_opens(url@),
            res matches Some(r) ==> r.url() == url@,
    {
        match open_client(url) {
            Ok(client) => Some(RedisService { client, url: Ghost(url@) }),
            Err(_) => None,
        }
    }

    /// The underlying client, for issuing commands.
    pub fn client(&self) -> (c: &::redis::Client)
        ensures
            *c == self.handle(),
    {
        &self.client
    }

    /// Whether an increment that returned `count` created the key.
    pub open spec fn spec_expiry_due(count: i32) -> bool {
        count == 1
    }

    /// After an increment has returned `count`, whether the key must now be given its
    /// lifetime: exactly when this increment created it.
    pub fn expiry_due(count: i32) -> (due: bool)
        ensures
            due == Self::spec_expiry_due(count),
    {
        count == 1
    }
}

} // verus!
