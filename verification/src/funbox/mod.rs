use vstd::prelude::*;

use crate::text::{has_substring, head_before, head_before_exec, str_contains};
use crate::trusted::{url_encode, url_encoded};

pub mod packets;

verus! {

/// How an authorized router call fails: with a diagnostic message, or with the
/// distinct unauthorized signal that asks for a fresh login.
#[derive(Debug)]
pub enum ApiError {
    Message(String),
    Unauthorized,
}

/// Mathematical image of an `ApiError`.
pub enum ApiErrorView {
    Message(Seq<char>),
    Unauthorized,
}

impl View for ApiError {
    type V = ApiErrorView;

    open spec fn view(&self) -> ApiErrorView {
        match self {
            ApiError::Message(m) => ApiErrorView::Message(m@),
            ApiError::Unauthorized => ApiErrorView::Unauthorized,
        }
    }
}

/// The message that decorates a response body carrying an error indicator.
pub open spec fn errors_message(body: Seq<char>) -> Seq<char> {
    "Got some errors in response: "@ + body
}

/// Gate shared by every router response: status 401 signals unauthorized
/// distinctly; a body holding the error indicator becomes a diagnostic
/// message; everything else passes through for decoding.
pub fn check_response(status: u16, body: &String) -> (r: Result<(), ApiError>)
    ensures
        match r {
            Ok(()) => status != 401 && !has_substring(body@, "errors"@),
            Err(e) => match e@ {
                ApiErrorView::Unauthorized => status == 401,
                ApiErrorView::Message(m) => status != 401 && has_substring(body@, "errors"@) && m
                    == errors_message(body@),
            },
        },
{
    if status == 401 {
        return Err(ApiError::Unauthorized);
    }
    if str_contains(body.as_str(), "errors") {
        let mut msg = String::from_str("Got some errors in response: ");
        msg.append(body.as_str());
        return Err(ApiError::Message(msg));
    }
    Ok(())
}

/// `headers[i]` is the first Set-Cookie value flagged HttpOnly.
pub open spec fn is_first_http_only(headers: Seq<String>, i: int) -> bool {
    &&& 0 <= i < headers.len()
    &&& has_substring(headers[i]@, "HttpOnly"@)
    &&& forall|t: int| 0 <= t < i ==> !has_substring(#[trigger] headers[t]@, "HttpOnly"@)
}

/// The session cookie taken from a login response: the `name=value` part —
/// everything before the first `;` — of the first Set-Cookie value flagged
/// HttpOnly, or `prior` when no value is flagged so.
pub open spec fn captured_cookie(headers: Seq<String>, prior: Seq<char>) -> Seq<char> {
    if exists|i: int| is_first_http_only(headers, i) {
        head_before(headers[choose|i: int| is_first_http_only(headers, i)]@, ';')
    } else {
        prior
    }
}

/// At most one Set-Cookie value is the first one flagged HttpOnly.
proof fn lemma_first_http_only_unique(headers: Seq<String>, i: int, j: int)
    requires
        is_first_http_only(headers, i),
        is_first_http_only(headers, j),
    ensures
        i == j,
{
}

/// Scans the Set-Cookie header values and returns the `name=value` part of the
/// first one flagged HttpOnly, with the attributes after the first `;`
/// discarded; returns nothing when no value is flagged so.
pub fn capture_session_cookie(headers: &Vec<String>) -> (r: Option<String>)
    ensures
        match r {
            Some(v) => exists|i: int|
                is_first_http_only(headers@, i) && v@ == head_before(
                    headers@[i]@,
                    ';',
                ),
            None => forall|i: int|
                0 <= i < headers@.len() ==> !has_substring(#[trigger] headers@[i]@, "HttpOnly"@),
        },
{
    let n = headers.len();
    let mut i: usize = 0;
    while i < n
        invariant
            0 <= i <= n,
            n == headers@.len(),
            forall|t: int| 0 <= t < i ==> !has_substring(#[trigger] headers@[t]@, "HttpOnly"@),
        decreases n - i,
    {
        let h = &headers[i];
        if str_contains(h.as_str(), "HttpOnly") {
            let v = head_before_exec(h.as_str(), ';');
            proof {
                assert(is_first_http_only(headers@, i as int));
            }
            return Some(v);
        }
        i = i + 1;
    }
    None
}

/// An authenticated channel to the router's local control API: the target
/// host, and the context token and session cookie obtained at login.
pub struct Session {
    pub host: String,
    pub context_id: String,
    pub cookie: String,
}

impl Session {
    /// Both credentials are still unset: no login has succeeded yet.
    pub open spec fn fresh(self) -> bool {
        self.context_id@.len() == 0 && self.cookie@.len() == 0
    }

    /// A login has succeeded: the context token is present and non-empty.
    pub open spec fn logged_in(self) -> bool {
        self.context_id@.len() > 0
    }

    /// The session invariant: credentials are empty until a successful login
    /// sets the context token.
    pub open spec fn wf(self) -> bool {
        self.fresh() || self.logged_in()
    }

    /// Tests the session invariant: credentials are empty until a successful
    /// login sets the context token.
    pub fn credentials_well_formed(&self) -> (r: bool)
        ensures
            r == self.wf(),
    {
        self.context_id.as_str().unicode_len() > 0 || self.cookie.as_str().unicode_len() == 0
    }

    /// Opens an unauthenticated session towards `host`.
    pub fn new(host: String) -> (r: Session)
        ensures
            r.host == host,
            r.fresh(),
            r.wf(),
    {
        Session { host, context_id: String::new(), cookie: String::new() }
    }

    /// Takes the decoded payload of a login response into the session: with a
    /// non-empty context token the token is installed and the session cookie
    /// is taken from the Set-Cookie values; an empty token fails and leaves
    /// the session exactly as it was.
    pub fn complete_login(
        &mut self,
        set_cookie_headers: &Vec<String>,
        context_id: String,
    ) -> (r: Result<(), ApiError>)
        requires
            old(self).wf(),
        ensures
            final(self).wf(),
            match r {
                Ok(()) => {
                    &&& context_id@.len() > 0
                    &&& final(self).host == old(self).host
                    &&& final(self).context_id == context_id
                    &&& final(self).cookie@ == captured_cookie(
                        set_cookie_headers@,
                        old(self).cookie@,
                    )
                    &&& final(self).logged_in()
                },
                Err(e) => {
                    &&& context_id@.len() == 0
                    &&& *final(self) == *old(self)
                    &&& e@ == ApiErrorView::Message("Response context ID is empty"@)
                },
            },
    {
        if context_id.as_str().unicode_len() == 0 {
            return Err(ApiError::Message(String::from_str("Response context ID is empty")));
        }
        match capture_session_cookie(set_cookie_headers) {
            Some(v) => {
                proof {
                    let i = choose|i: int| is_first_http_only(set_cookie_headers@, i);
                    let w = choose|w: int|
                        is_first_http_only(set_cookie_headers@, w) && v@ == head_before(
                            set_cookie_headers@[w]@,
                            ';',
                        );
                    lemma_first_http_only_unique(set_cookie_headers@, i, w);
                }
                self.cookie = v;
            },
            None => {
                proof {
                    if exists|i: int| is_first_http_only(set_cookie_headers@, i) {
                        let i = choose|i: int| is_first_http_only(set_cookie_headers@, i);
                        assert(has_substring(set_cookie_headers@[i]@, "HttpOnly"@));
                    }
                }
            },
        }
        self.context_id = context_id;
        Ok(())
    }

    /// The Authorization header of an authorized call: the scheme marker and
    /// the stored context token.
    pub fn authorization_header(&self) -> (r: String)
        ensures
            r@ == "X-Sah "@ + self.context_id@,
    {
        let mut out = String::from_str("X-Sah ");
        out.append(self.context_id.as_str());
        out
    }

    /// The Cookie header of an authorized call: the stored session cookie
    /// beside the URL-encoded context token.
    pub fn cookie_header(&self) -> (r: String)
        ensures
            r@ == self.cookie@ + "; sah/contextId="@ + url_encoded(self.context_id@),
    {
        let mut out = self.cookie.clone();
        out.append("; sah/contextId=");
        let enc = url_encode(self.context_id.as_str());
        out.append(enc.as_str());
        proof {
            assert(out@ =~= self.cookie@ + "; sah/contextId="@ + url_encoded(self.context_id@));
        }
        out
    }

    /// The URL of the router's RPC endpoint on the session's host.
    pub fn endpoint_url(&self) -> (r: String)
        ensures
            r@ == "http://"@ + self.host@ + "/ws"@,
    {
        let mut out = String::from_str("http://");
        out.append(self.host.as_str());
        out.append("/ws");
        proof {
            assert(out@ =~= "http://"@ + self.host@ + "/ws"@);
        }
        out
    }
}

} // verus!
