//! The handle on the key-value store that keeps cached key sets and request counters.
//! Opening the handle checks the connection URL; the commands themselves run in the
//! service around this library.
pub mod redis;

use vstd::prelude::*;

verus! {

#[verifier::external_type_specification]
#[verifier::external_body]
pub struct ExRedisClient(::redis::Client);

#[verifier::external_type_specification]
#[verifier::external_body]
pub struct ExRedisError(::redis::RedisError);

/// Whether `redis::Client::open` accepts a connection URL (a `redis`, `rediss`,
/// `unix` or `redis+unix` URL that the client can read, as the crate is built).
pub uninterp spec fn redis_url_opens(url: Seq<char>) -> bool;

/// `redis::Client::open` on a URL string. It only reads the URL and opens no
/// connection, so its outcome depends on the URL alone: it succeeds exactly when
/// `redis_url_opens` holds of the URL.
#[verifier::external_body]
pub(crate) fn open_client(url: &str) -> (res: Result<::redis::Client, ::redis::RedisError>)
    ensures
        res is Ok <==> redis_url_opens(url@),
{
    ::redis::Client::open(url)
}

/// A client of the key-value store.
pub struct RedisService {
    client: ::redis::Client,
    url: Ghost<Seq<char>>,
}

impl RedisService {
    /// The connection URL the client was opened on.
    pub closed spec fn url(&self) -> Seq<char> {
        self.url@
    }

    /// The client the service issues its commands through.
    pub closed spec fn handle(&self) -> ::redis::Client {
        self.client
    }

    /// Opens a client on `url`; the URL must be one the client accepts.
    pub fn new(url: &str) -> (res: Self)
        requires
            redis_url_opens(url@),
        ensures
            res.url() == url@,
    {
        RedisService { client: open_client(url).unwrap(), url: Ghost(url@) }
    }

    /// Opens a client on `url`, or gives `None` when the URL is refused.
    pub fn open(url: &str) -> (res: Option<Self>)
        ensures
            res is Some <==> redis_url_opens(url@),
            res matches Some(r) ==> r.url() == url@,
    {
        match open_client(url) {
            Ok(client) => Some(RedisService { client, url: Ghost(url@) }),
            Err(_) => None,
        }
    }

    /// The underlying client, for issuing commands.
    pub fn client(&self) -> (c: &::redis::Client)
        ensures
            *c == self.handle(),
    {
        &self.client
    }
}

} // verus!
