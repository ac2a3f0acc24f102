//! The login callback: the authorization code the identity provider sends back is
//! exchanged for tokens, which are handed to the browser as HTTP-only cookies.
use vstd::prelude::*;
use crate::config::AppConfig;
use crate::middleware::Rejection;
use crate::numeric::{append_decimal, decimal, is_digit, lemma_decimal_digits};

verus! {

/// Lifetime of the access-token cookie, in seconds.
pub const ACCESS_TOKEN_MAX_AGE: u64 = 3600;

/// Lifetime of the refresh-token cookie, in seconds.
pub const REFRESH_TOKEN_MAX_AGE: u64 = 86400;

/// Why the callback could not complete.
pub enum CallbackFailure {
    /// The request has no `code` parameter.
    MissingCode,
    /// The token request could not be made.
    TokenRequestFailed,
    /// The token response could not be read as JSON.
    TokenResponseUnreadable,
}

impl CallbackFailure {
    /// The status of the failure's response.
    pub fn rejection(&self) -> (r: Rejection)
        ensures
            r == match self {
                CallbackFailure::MissingCode => Rejection::BadRequest,
                _ => Rejection::BadGateway,
            },
    {
        match self {
            CallbackFailure::MissingCode => Rejection::BadRequest,
            _ => Rejection::BadGateway,
        }
    }

    /// The `error` text of the failure's response.
    pub fn message(&self) -> (m: String)
        ensures
            m@ == match self {
                CallbackFailure::MissingCode => "Missing code"@,
                CallbackFailure::TokenRequestFailed => "Token failed"@,
                CallbackFailure::TokenResponseUnreadable => "Parse failed"@,
            },
    {
        match self {
            CallbackFailure::MissingCode => String::from_str("Missing code"),
            CallbackFailure::TokenRequestFailed => String::from_str("Token failed"),
            CallbackFailure::TokenResponseUnreadable => String::from_str("Parse failed"),
        }
    }
}

fn field(name: &str, value: &str) -> (f: (String, String))
    ensures
        f.0@ == name@,
        f.1@ == value@,
{
    (String::from_str(name), String::from_str(value))
}

/// The form of the authorization-code exchange, in order: `client_id`,
/// `client_secret`, `grant_type=authorization_code`, `code`, `redirect_uri`.
pub open spec fn is_token_request_form(
    form: Seq<(String, String)>,
    config: AppConfig,
    code: Seq<char>,
) -> bool {
    &&& form.len() == 5
    &&& form[0].0@ == "client_id"@ && form[0].1@ == config.client_id@
    &&& form[1].0@ == "client_secret"@ && form[1].1@ == config.client_secret@
    &&& form[2].0@ == "grant_type"@ && form[2].1@ == "authorization_code"@
    &&& form[3].0@ == "code"@ && form[3].1@ == code
    &&& form[4].0@ == "redirect_uri"@ && form[4].1@ == config.redirect_uri@
}

/// Builds the form of the authorization-code exchange for `code`.
pub fn token_request_form(config: &AppConfig, code: &str) -> (form: Vec<(String, String)>)
    ensures
        is_token_request_form(form@, *config, code@),
{
    let mut form: Vec<(String, String)> = Vec::new();
    form.push(field("client_id", config.client_id.as_str()));
    form.push(field("client_secret", config.client_secret.as_str()));
    form.push(field("grant_type", "authorization_code"));
    form.push(field("code", code));
    form.push(field("redirect_uri", config.redirect_uri.as_str()));
    form
}

/// The first step of the callback: without a `code` parameter it fails with
/// `MissingCode`; otherwise it gives the form of the token request.
pub fn callback_start(code: Option<&str>, config: &AppConfig) -> (res: Result<
    Vec<(String, String)>,
    CallbackFailure,
>)
    ensures
        match code {
            None => res matches Err(CallbackFailure::MissingCode),
            Some(c) => res matches Ok(form) && is_token_request_form(form@, *config, c@),
        },
{
    match code {
        None => Err(CallbackFailure::MissingCode),
        Some(c) => Ok(token_request_form(config, c)),
    }
}

/// A character a header value may hold: not a control character other than tab.
pub open spec fn is_header_char(c: char) -> bool {
    (c as int >= 32 && c as int != 127) || c == '\t'
}

/// Text that makes a valid header value.
pub open spec fn header_text_ok(s: Seq<char>) -> bool {
    forall|i: int| 0 <= i < s.len() ==> #[trigger] is_header_char(s[i])
}

proof fn lemma_header_text_concat(a: Seq<char>, b: Seq<char>)
    requires
        header_text_ok(a),
        header_text_ok(b),
    ensures
        header_text_ok(a + b),
{
    assert forall|i: int| 0 <= i < (a + b).len() implies #[trigger] is_header_char((a + b)[i]) by {
        if i < a.len() {
            assert(is_header_char(a[i]));
        } else {
            assert(is_header_char(b[i - a.len()]));
        }
    }
}

/// A session cookie made of a name and a value that are valid header text is itself
/// valid header text.
pub proof fn lemma_session_cookie_header_text(name: Seq<char>, value: Seq<char>, max_age: nat)
    requires
        header_text_ok(name),
        header_text_ok(value),
    ensures
        header_text_ok(spec_session_cookie(name, value, max_age)),
{
    reveal_strlit("=");
    reveal_strlit("; HttpOnly; Path=/; Max-Age=");
    let eq = "="@;
    let mid = "; HttpOnly; Path=/; Max-Age="@;
    assert(header_text_ok(eq)) by {
        assert(is_header_char(eq[0]));
    }
    assert(header_text_ok(mid)) by {
        assert forall|i: int| 0 <= i < mid.len() implies #[trigger] is_header_char(mid[i]) by {
            assert(mid[i] as int >= 32 && mid[i] as int <= 126);
        }
    }
    let digits = decimal(max_age);
    lemma_decimal_digits(max_age);
    assert(header_text_ok(digits)) by {
        assert forall|i: int| 0 <= i < digits.len() implies #[trigger] is_header_char(digits[i]) by {
            assert(is_digit(digits[i]));
        }
    }
    lemma_header_text_concat(name, eq);
    lemma_header_text_concat(name + eq, value);
    lemma_header_text_concat(name + eq + value, mid);
    lemma_header_text_concat(name + eq + value + mid, digits);
}

/// The text of a session cookie.
pub open spec fn spec_session_cookie(name: Seq<char>, value: Seq<char>, max_age: nat) -> Seq<char> {
    name + "="@ + value + "; HttpOnly; Path=/; Max-Age="@ + decimal(max_age)
}

/// Reading a session cookie back: it begins with the name and `=`, the value follows
/// whole (of whatever length), and after it come the attributes and the lifetime in
/// decimal; so two cookies of one name and lifetime are equal only if their values are.
pub proof fn lemma_session_cookie_reads_back(
    name: Seq<char>,
    value: Seq<char>,
    other: Seq<char>,
    max_age: nat,
)
    ensures
        spec_session_cookie(name, value, max_age).take(name.len() as int) == name,
        spec_session_cookie(name, value, max_age)[name.len() as int] == '=',
        spec_session_cookie(name, value, max_age).subrange(
            name.len() + 1int,
            name.len() + 1int + value.len(),
        ) == value,
        spec_session_cookie(name, value, max_age).skip(name.len() + 1int + value.len())
            == "; HttpOnly; Path=/; Max-Age="@ + decimal(max_age),
        spec_session_cookie(name, value, max_age).len() == name.len() + value.len() + 29
            + decimal(max_age).len(),
        spec_session_cookie(name, value, max_age) == spec_session_cookie(name, other, max_age)
            ==> value == other,
{
    reveal_strlit("=");
    reveal_strlit("; HttpOnly; Path=/; Max-Age=");
    let c = spec_session_cookie(name, value, max_age);
    let mid = "; HttpOnly; Path=/; Max-Age="@ + decimal(max_age);
    assert(c =~= name + ("="@ + (value + mid)));
    assert(c.take(name.len() as int) =~= name);
    assert(c.subrange(name.len() + 1int, name.len() + 1int + value.len()) =~= value);
    assert(c.skip(name.len() + 1int + value.len()) =~= mid);
    let d = spec_session_cookie(name, other, max_age);
    if c == d {
        assert(d =~= name + ("="@ + (other + mid)));
        assert(c.len() == d.len());
        assert(d.subrange(name.len() + 1int, name.len() + 1int + other.len()) =~= other);
    }
}

/// A session cookie: `<name>=<value>; HttpOnly; Path=/; Max-Age=<max_age>`.
pub fn session_cookie(name: &str, value: &str, max_age: u64) -> (cookie: String)
    ensures
        cookie@ == spec_session_cookie(name@, value@, max_age as nat),
        header_text_ok(name@) && header_text_ok(value@) ==> header_text_ok(cookie@),
{
    proof {
        if header_text_ok(name@) && header_text_ok(value@) {
            lemma_session_cookie_header_text(name@, value@, max_age as nat);
        }
    }
    let mut cookie = String::from_str(name).concat("=").concat(value).concat(
        "; HttpOnly; Path=/; Max-Age=",
    );
    append_decimal(&mut cookie, max_age);
    cookie
}

/// The two cookies of a successful login, access token first: each token as the
/// response gave it, or empty when it gave none.
pub fn session_cookies(access_token: Option<&str>, refresh_token: Option<&str>) -> (cookies: Vec<
    String,
>)
    ensures
        cookies@.len() == 2,
        cookies@[0]@ == spec_session_cookie(
            "access_token"@,
            match access_token {
                Some(t) => t@,
                None => Seq::<char>::empty(),
            },
            ACCESS_TOKEN_MAX_AGE as nat,
        ),
        cookies@[1]@ == spec_session_cookie(
            "refresh_token"@,
            match refresh_token {
                Some(t) => t@,
                None => Seq::<char>::empty(),
            },
            REFRESH_TOKEN_MAX_AGE as nat,
        ),
        header_text_ok(
            match access_token {
                Some(t) => t@,
                None => Seq::<char>::empty(),
            },
        ) ==> header_text_ok(cookies@[0]@),
        header_text_ok(
            match refresh_token {
                Some(t) => t@,
                None => Seq::<char>::empty(),
            },
        ) ==> header_text_ok(cookies@[1]@),
{
    let access = match access_token {
        Some(t) => t,
        None => "",
    };
    let refresh = match refresh_token {
        Some(t) => t,
        None => "",
    };
    proof {
        reveal_strlit("");
        reveal_strlit("access_token");
        reveal_strlit("refresh_token");
        assert(header_text_ok("access_token"@));
        assert(header_text_ok("refresh_token"@));
    }
    let mut cookies: Vec<String> = Vec::new();
    cookies.push(session_cookie("access_token", access, ACCESS_TOKEN_MAX_AGE));
    cookies.push(session_cookie("refresh_token", refresh, REFRESH_TOKEN_MAX_AGE));
    cookies
}

} // verus!
