//! The requests that the library asks the caller to send, and the replies
//! that it reads, as plain values.

use vstd::prelude::*;
use crate::text::{push_str, string_of};

verus! {

/// The methods the portal is spoken to with.
#[derive(Debug, Clone, Copy, PartialEq, Eq)]
pub enum HttpMethod {
    Get,
    Post,
}

/// A request to send, with its headers in order.
#[derive(Debug, Clone)]
pub struct HttpRequest {
    pub method: HttpMethod,
    pub url: String,
    pub headers: Vec<(String, String)>,
    pub body: Option<String>,
}

/// A request as text.
pub struct RequestSpec {
    pub method: HttpMethod,
    pub url: Seq<char>,
    pub headers: Seq<(Seq<char>, Seq<char>)>,
    pub body: Option<Seq<char>>,
}

impl View for HttpRequest {
    type V = RequestSpec;

    open spec fn view(&self) -> RequestSpec {
        RequestSpec {
            method: self.method,
            url: self.url@,
            headers: self.headers@.map_values(|h: (String, String)| (h.0@, h.1@)),
            body: match self.body {
                Some(b) => Some(b@),
                None => None,
            },
        }
    }
}

/// What came back for a request: the status, the `Location` header, the
/// `Set-Cookie` headers in order, and the body when it was read.
#[derive(Debug, Clone)]
pub struct HttpReply {
    pub status: u16,
    pub location: Option<String>,
    pub set_cookies: Vec<String>,
    pub body: String,
}

/// The browser the portal is told it is talking to.
pub open spec fn user_agent() -> Seq<char> {
    "Mozilla/5.0 (Macintosh; Intel Mac OS X 10_15_7) AppleWebKit/537.36 (KHTML, like Gecko) Chrome/120.0.0.0 Safari/537.36"@
}

/// The `Accept` header of page requests.
pub open spec fn accept_html() -> Seq<char> {
    "text/html,application/xhtml+xml,application/xml;q=0.9,image/avif,image/webp,image/apng,*/*;q=0.8"@
}

/// The `Accept-Language` header of the login requests.
pub open spec fn accept_language() -> Seq<char> {
    "zh-CN,zh;q=0.9,en;q=0.8"@
}

/// The user info endpoint that hands out the token.
pub open spec fn token_url() -> Seq<char> {
    "https://hpc.cugb.edu.cn/ac/api/user/getCurrentUserInfo.action?includeToken=true&refresh=true"@
}

/// The key download endpoint.
pub open spec fn key_url() -> Seq<char> {
    "https://gridview.cugb.edu.cn:6081/sothisai/api/eshell/action/downloadkey"@
}

/// The request for the login page.
pub open spec fn page_request_spec(url: Seq<char>) -> RequestSpec {
    RequestSpec {
        method: HttpMethod::Get,
        url,
        headers: seq![
            ("User-Agent"@, user_agent()),
            ("Accept"@, accept_html()),
            ("Accept-Language"@, accept_language()),
        ],
        body: None,
    }
}

/// The submission of the login form.
pub open spec fn login_post_spec(url: Seq<char>, cookie: Seq<char>, body: Seq<char>) -> RequestSpec {
    RequestSpec {
        method: HttpMethod::Post,
        url,
        headers: seq![
            ("Cookie"@, cookie),
            ("Origin"@, "https://hpc.cugb.edu.cn"@),
            ("Referer"@, url),
            ("Content-Type"@, "application/x-www-form-urlencoded"@),
            ("User-Agent"@, user_agent()),
            ("Accept"@, accept_html()),
            ("Accept-Language"@, accept_language()),
        ],
        body: Some(body),
    }
}

/// A step of the single sign-on redirect chain.
pub open spec fn redirect_request_spec(url: Seq<char>, cookie: Seq<char>) -> RequestSpec {
    RequestSpec {
        method: HttpMethod::Get,
        url,
        headers: seq![("Cookie"@, cookie), ("User-Agent"@, user_agent()), ("Accept"@, accept_html())],
        body: None,
    }
}

/// The request for the token.
pub open spec fn token_request_spec(cookie: Seq<char>) -> RequestSpec {
    RequestSpec {
        method: HttpMethod::Get,
        url: token_url(),
        headers: seq![
            ("Cookie"@, cookie),
            ("User-Agent"@, user_agent()),
            ("Accept"@, "application/json"@),
        ],
        body: None,
    }
}

/// The request for the private key, authorised by the token.
pub open spec fn key_request_spec(token: Seq<char>) -> RequestSpec {
    RequestSpec {
        method: HttpMethod::Get,
        url: key_url(),
        headers: seq![("token"@, token), ("Accept"@, "application/json"@)],
        body: None,
    }
}

fn header(name: &str, value: &str) -> (h: (String, String))
    ensures
        h.0@ == name@,
        h.1@ == value@,
{
    (name.to_owned(), value.to_owned())
}

fn user_agent_text() -> (s: &'static str)
    ensures
        s@ == user_agent(),
{
    "Mozilla/5.0 (Macintosh; Intel Mac OS X 10_15_7) AppleWebKit/537.36 (KHTML, like Gecko) Chrome/120.0.0.0 Safari/537.36"
}

fn accept_html_text() -> (s: &'static str)
    ensures
        s@ == accept_html(),
{
    "text/html,application/xhtml+xml,application/xml;q=0.9,image/avif,image/webp,image/apng,*/*;q=0.8"
}

fn accept_language_text() -> (s: &'static str)
    ensures
        s@ == accept_language(),
{
    "zh-CN,zh;q=0.9,en;q=0.8"
}

/// The request for the login page.
pub fn page_request(url: &str) -> (r: HttpRequest)
    ensures
        r@ == page_request_spec(url@),
{
    let headers = vec![
        header("User-Agent", user_agent_text()),
        header("Accept", accept_html_text()),
        header("Accept-Language", accept_language_text()),
    ];
    let r = HttpRequest { method: HttpMethod::Get, url: url.to_owned(), headers, body: None };
    assert(r@.headers =~= page_request_spec(url@).headers);
    r
}

/// The submission of the login form.
pub fn login_post(url: &str, cookie: &str, body: &str) -> (r: HttpRequest)
    ensures
        r@ == login_post_spec(url@, cookie@, body@),
{
    let headers = vec![
        header("Cookie", cookie),
        header("Origin", "https://hpc.cugb.edu.cn"),
        header("Referer", url),
        header("Content-Type", "application/x-www-form-urlencoded"),
        header("User-Agent", user_agent_text()),
        header("Accept", accept_html_text()),
        header("Accept-Language", accept_language_text()),
    ];
    let r = HttpRequest {
        method: HttpMethod::Post,
        url: url.to_owned(),
        headers,
        body: Some(body.to_owned()),
    };
    assert(r@.headers =~= login_post_spec(url@, cookie@, body@).headers);
    r
}

/// A step of the single sign-on redirect chain.
pub fn redirect_request(url: &str, cookie: &str) -> (r: HttpRequest)
    ensures
        r@ == redirect_request_spec(url@, cookie@),
{
    let headers = vec![
        header("Cookie", cookie),
        header("User-Agent", user_agent_text()),
        header("Accept", accept_html_text()),
    ];
    let r = HttpRequest { method: HttpMethod::Get, url: url.to_owned(), headers, body: None };
    assert(r@.headers =~= redirect_request_spec(url@, cookie@).headers);
    r
}

/// The request for the token.
pub fn token_request(cookie: &str) -> (r: HttpRequest)
    ensures
        r@ == token_request_spec(cookie@),
{
    let headers = vec![
        header("Cookie", cookie),
        header("User-Agent", user_agent_text()),
        header("Accept", "application/json"),
    ];
    let url: &str = "https://hpc.cugb.edu.cn/ac/api/user/getCurrentUserInfo.action?includeToken=true&refresh=true";
    let r = HttpRequest { method: HttpMethod::Get, url: url.to_owned(), headers, body: None };
    assert(r@.headers =~= token_request_spec(cookie@).headers);
    r
}

/// The request for the private key, authorised by the token.
pub fn key_download_request(token: &str) -> (r: HttpRequest)
    ensures
        r@ == key_request_spec(token@),
{
    let headers = vec![header("token", token), header("Accept", "application/json")];
    let url: &str = "https://gridview.cugb.edu.cn:6081/sothisai/api/eshell/action/downloadkey";
    let r = HttpRequest { method: HttpMethod::Get, url: url.to_owned(), headers, body: None };
    assert(r@.headers =~= key_request_spec(token@).headers);
    r
}

/// The redirect target that carries a service ticket to the service.
pub open spec fn ticket_url_text(ticket: Seq<char>) -> Seq<char> {
    "https://hpc.cugb.edu.cn/ac/api/auth/loginSsoRedirect.action"@ + "?ticket="@ + ticket
}

/// The redirect target that carries a service ticket to the service.
pub fn ticket_url(ticket: &str) -> (u: String)
    ensures
        u@ == ticket_url_text(ticket@),
{
    let mut v: Vec<char> = Vec::new();
    push_str(&mut v, "https://hpc.cugb.edu.cn/ac/api/auth/loginSsoRedirect.action");
    push_str(&mut v, "?ticket=");
    push_str(&mut v, ticket);
    string_of(&v)
}

/// Law: the key download request is a GET, with no body, of the key download
/// endpoint; it carries the token it was built from as its `token` header and
/// asks for JSON, so requests built from different tokens differ.
pub proof fn lemma_key_request_carries_token(token: Seq<char>, other: Seq<char>)
    ensures
        key_request_spec(token).method == HttpMethod::Get,
        key_request_spec(token).url == "https://gridview.cugb.edu.cn:6081/sothisai/api/eshell/action/downloadkey"@,
        key_request_spec(token).body is None,
        exists|i: int|
            0 <= i < key_request_spec(token).headers.len() && #[trigger] key_request_spec(token).headers[i]
                == ("token"@, token),
        exists|i: int|
            0 <= i < key_request_spec(token).headers.len() && #[trigger] key_request_spec(token).headers[i]
                == ("Accept"@, "application/json"@),
        other != token ==> key_request_spec(other) != key_request_spec(token),
{
    let h = key_request_spec(token).headers;
    assert(h[0] == ("token"@, token));
    assert(h[1] == ("Accept"@, "application/json"@));
    if other != token {
        assert(key_request_spec(other).headers[0] != h[0]);
    }
}

} // verus!
