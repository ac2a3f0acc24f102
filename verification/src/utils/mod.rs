//! Reading request header values: the visible-ASCII rule a header value must meet to
//! be read as text, bearer-token extraction, and prefix matching on text.
use vstd::prelude::*;

verus! {

#[verifier::external_type_specification]
#[verifier::external_body]
pub struct ExUtf8Error(core::str::Utf8Error);

/// A byte that a header value may hold and still be read as text: printable ASCII
/// or a horizontal tab.
pub open spec fn is_visible_ascii(b: u8) -> bool {
    (32 <= b && b < 127) || b == 9
}

pub open spec fn visible_ascii(bytes: Seq<u8>) -> bool {
    forall|i: int| 0 <= i < bytes.len() ==> #[trigger] is_visible_ascii(bytes[i])
}

/// The characters that ASCII bytes stand for.
pub open spec fn ascii_chars(bytes: Seq<u8>) -> Seq<char> {
    bytes.map_values(|b: u8| b as char)
}

/// A header value read as text: defined exactly when every byte is visible ASCII.
pub open spec fn spec_header_str(bytes: Seq<u8>) -> Option<Seq<char>> {
    if visible_ascii(bytes) {
        Some(ascii_chars(bytes))
    } else {
        None
    }
}

/// The text after `prefix`, when `s` begins with it.
pub open spec fn spec_strip_prefix(s: Seq<char>, prefix: Seq<char>) -> Option<Seq<char>> {
    if prefix.is_prefix_of(s) {
        Some(s.skip(prefix.len() as int))
    } else {
        None
    }
}

/// The scheme word, and the space after it, that introduces a bearer token.
pub open spec fn bearer_prefix() -> Seq<char> {
    seq!['B', 'e', 'a', 'r', 'e', 'r', ' ']
}

/// The bearer token carried by an `Authorization` header value, if there is one.
pub open spec fn spec_extract_token(header: Option<Seq<u8>>) -> Option<Seq<char>> {
    match header {
        None => None,
        Some(bytes) => match spec_header_str(bytes) {
            None => None,
            Some(s) => spec_strip_prefix(s, bearer_prefix()),
        },
    }
}

/// `std::str::from_utf8`, called on ASCII bytes only: per its documentation such a
/// slice is valid UTF-8 and reads as the characters with the same codes.
#[verifier::external_body]
fn utf8_str(bytes: &[u8]) -> (res: Result<&str, core::str::Utf8Error>)
    requires
        forall|i: int| 0 <= i < bytes@.len() ==> bytes@[i] < 128,
    ensures
        res is Ok,
        res->Ok_0@ == ascii_chars(bytes@),
{
    std::str::from_utf8(bytes)
}

/// Reads a header value as text, as `HeaderValue::to_str` does: only when every
/// byte is visible ASCII.
pub fn header_to_str(bytes: &[u8]) -> (res: Option<&str>)
    ensures
        match spec_header_str(bytes@) {
            Some(s) => res matches Some(r) && r@ == s,
            None => res is None,
        },
{
    let n = bytes.len();
    let mut i: usize = 0;
    while i < n
        invariant
            n == bytes@.len(),
            i <= n,
            forall|j: int| 0 <= j < i ==> #[trigger] is_visible_ascii(bytes@[j]),
        decreases n - i,
    {
        let b = bytes[i];
        if !((32 <= b && b < 127) || b == 9) {
            assert(!is_visible_ascii(bytes@[i as int]));
            return None;
        }
        i = i + 1;
    }
    assert forall|j: int| 0 <= j < bytes@.len() implies bytes@[j] < 128 by {
        assert(is_visible_ascii(bytes@[j]));
    }
    match utf8_str(bytes) {
        Ok(s) => Some(s),
        Err(_) => None,
    }
}

/// Whether `s` begins with `prefix`.
pub fn starts_with(s: &str, prefix: &str) -> (res: bool)
    ensures
        res == prefix@.is_prefix_of(s@),
{
    let n = s.unicode_len();
    let m = prefix.unicode_len();
    if m > n {
        return false;
    }
    let mut i: usize = 0;
    while i < m
        invariant
            n == s@.len(),
            m == prefix@.len(),
            m <= n,
            i <= m,
            forall|j: int| 0 <= j < i ==> s@[j] == prefix@[j],
        decreases m - i,
    {
        if s.get_char(i) != prefix.get_char(i) {
            assert(s@.subrange(0, m as int)[i as int] != prefix@[i as int]);
            return false;
        }
        i = i + 1;
    }
    assert(prefix@ =~= s@.subrange(0, m as int));
    true
}

/// The text after `prefix`, when `s` begins with it, as `str::strip_prefix` gives it.
pub fn strip_prefix<'a>(s: &'a str, prefix: &str) -> (res: Option<&'a str>)
    ensures
        match spec_strip_prefix(s@, prefix@) {
            Some(t) => res matches Some(r) && r@ == t,
            None => res is None,
        },
{
    if starts_with(s, prefix) {
        let n = s.unicode_len();
        let m = prefix.unicode_len();
        let rest = s.substring_char(m, n);
        assert(rest@ =~= s@.skip(prefix@.len() as int));
        Some(rest)
    } else {
        None
    }
}

/// The bearer token of a request: the `Authorization` header value read as text,
/// with the leading `Bearer ` taken off.
pub fn extract_token(authorization: Option<&[u8]>) -> (token: Option<&str>)
    ensures
        match spec_extract_token(
            match authorization {
                Some(b) => Some(b@),
                None => None,
            },
        ) {
            Some(t) => token matches Some(r) && r@ == t,
            None => token is None,
        },
{
    match authorization {
        None => None,
        Some(bytes) => match header_to_str(bytes) {
            None => None,
            Some(s) => {
                let prefix = "Bearer ";
                proof {
                    reveal_strlit("Bearer ");
                }
                assert(prefix@ =~= bearer_prefix());
                strip_prefix(s, prefix)
            },
        },
    }
}

/// The bytes of `Bearer ` as a client sends them.
pub open spec fn bearer_bytes() -> Seq<u8> {
    seq![66u8, 101u8, 97u8, 114u8, 101u8, 114u8, 32u8]
}

/// A client that sends `Bearer ` and a token of visible ASCII gets exactly that token
/// back out of its `Authorization` header.
pub proof fn lemma_bearer_token_roundtrip(token: Seq<u8>)
    requires
        visible_ascii(token),
    ensures
        spec_extract_token(Some(bearer_bytes() + token)) == Some(ascii_chars(token)),
{
    let h = bearer_bytes() + token;
    assert forall|i: int| 0 <= i < h.len() implies #[trigger] is_visible_ascii(h[i]) by {
        if i >= 7 {
            assert(h[i] == token[i - 7]);
        }
    }
    let s = ascii_chars(h);
    assert(s.subrange(0, 7) =~= bearer_prefix()) by {
        assert(66u8 as char == 'B');
        assert(101u8 as char == 'e');
        assert(97u8 as char == 'a');
        assert(114u8 as char == 'r');
        assert(32u8 as char == ' ');
    }
    assert(s.skip(7) =~= ascii_chars(token));
}

} // verus!
