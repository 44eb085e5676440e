//! The CAS login of the HPC portal: the texts it sends and the fields it reads
//! from what comes back.

use vstd::prelude::*;
use vstd::utf8::encode_utf8;
use crate::errors::GhpcError;
use crate::scan::{
    find_class, find_in, find_leftmost, leftmost, lemma_find_class_bounds, slice_chars, CharClass,
    Pattern,
};
use crate::text::{
    chars_of, decimal, has_prefix, push_all, push_decimal, push_str, same_text, starts_with,
    string_of,
};
use crate::types::{DownloadKeyResponse, LoginConfig, TokenResponse};
use crate::http::{
    login_post, login_post_spec, page_request, page_request_spec, redirect_request,
    redirect_request_spec, ticket_url, ticket_url_text, token_request, token_request_spec,
    HttpReply, HttpRequest, RequestSpec,
};
use crate::session::{
    apply_all_spec, cookie_header_text, has_char, jar_get, lemma_apply_all_keeps_distinct,
    lemma_set_cookie_sets, names_distinct, CookieJar,
};

verus! {

/// Bytes that percent-encoding leaves as they are: ASCII letters, digits and `-._~`.
pub open spec fn is_unreserved(b: u8) -> bool {
    ||| 48 <= b <= 57
    ||| 65 <= b <= 90
    ||| 97 <= b <= 122
    ||| b == 45 || b == 46 || b == 95 || b == 126
}

/// The upper-case hexadecimal digit for `d < 16`.
pub open spec fn hex_upper(d: int) -> char {
    if d < 10 {
        (48 + d) as char
    } else {
        (55 + d) as char
    }
}

/// One byte percent-encoded.
pub open spec fn encode_byte(b: u8) -> Seq<char> {
    if is_unreserved(b) {
        seq![b as char]
    } else {
        seq!['%', hex_upper(b as int / 16), hex_upper(b as int % 16)]
    }
}

/// Percent-encoding of bytes, every byte but the unreserved ones as `%XX`.
pub open spec fn percent_encode(bytes: Seq<u8>) -> Seq<char>
    decreases bytes.len(),
{
    if bytes.len() == 0 {
        seq![]
    } else {
        percent_encode(bytes.drop_last()) + encode_byte(bytes.last())
    }
}

/// Percent-encoding of a text's UTF-8 bytes.
pub open spec fn url_encoded(s: Seq<char>) -> Seq<char> {
    percent_encode(encode_utf8(s))
}

/// Characters that percent-encoded text is made of: ASCII letters and
/// digits, `-._~`, and `%`.
pub open spec fn is_encoded_char(c: char) -> bool {
    ||| ('0' <= c && c <= '9')
    ||| ('A' <= c && c <= 'Z')
    ||| ('a' <= c && c <= 'z')
    ||| c == '-' || c == '.' || c == '_' || c == '~' || c == '%'
}

proof fn lemma_percent_encode_chars(bytes: Seq<u8>)
    ensures
        forall|i: int| 0 <= i < percent_encode(bytes).len() ==> is_encoded_char(
            #[trigger] percent_encode(bytes)[i],
        ),
    decreases bytes.len(),
{
    if bytes.len() > 0 {
        lemma_percent_encode_chars(bytes.drop_last());
        let front = percent_encode(bytes.drop_last());
        let last = encode_byte(bytes.last());
        let b = bytes.last();
        assert forall|k: int| 0 <= k < last.len() implies is_encoded_char(#[trigger] last[k]) by {
            if is_unreserved(b) {
                assert((b as char) as u32 == b as u32);
            } else {
                assert(b as int / 16 < 16);
            }
        }
        assert forall|i: int| 0 <= i < percent_encode(bytes).len() implies is_encoded_char(
            #[trigger] percent_encode(bytes)[i],
        ) by {
            if i < front.len() {
                assert(percent_encode(bytes)[i] == front[i]);
            } else {
                assert(percent_encode(bytes)[i] == last[i - front.len()]);
            }
        }
    }
}

/// Law: percent-encoded text holds only letters, digits, `-._~` and `%`, so
/// no value can bring a `&` or `=` into the login form or the login page URL.
pub proof fn lemma_url_encoded_is_plain(s: Seq<char>)
    ensures
        forall|i: int| 0 <= i < url_encoded(s).len() ==> is_encoded_char(#[trigger] url_encoded(s)[i]),
        forall|i: int| 0 <= i < url_encoded(s).len() ==> url_encoded(s)[i] != '&' && url_encoded(s)[i] != '=',
{
    lemma_percent_encode_chars(encode_utf8(s));
}

/// `urlencoding::encode`: percent-encodes every UTF-8 byte of `s` except ASCII
/// alphanumerics and `-`, `_`, `.`, `~`, with upper-case hex digits.
#[verifier::external_body]
pub fn url_encode(s: &str) -> (r: String)
    ensures
        r@ == url_encoded(s@),
{
    urlencoding::encode(s).into_owned()
}

/// Where the CAS login sends the service ticket.
pub open spec fn service_url() -> Seq<char> {
    "https://hpc.cugb.edu.cn/ac/api/auth/loginSsoRedirect.action"@
}

/// Where the CAS login sends the service ticket.
pub fn service_url_text() -> (s: &'static str)
    ensures
        s@ == service_url(),
{
    "https://hpc.cugb.edu.cn/ac/api/auth/loginSsoRedirect.action"
}

/// The origin of the portal.
pub open spec fn portal_origin() -> Seq<char> {
    "https://hpc.cugb.edu.cn"@
}

/// The login page URL for a service, with a millisecond timestamp against caching.
pub open spec fn login_page_url_text(service: Seq<char>, timestamp: nat) -> Seq<char> {
    "https://hpc.cugb.edu.cn/sso/login?service="@ + url_encoded(service) + "&t="@ + decimal(
        timestamp,
    )
}

/// The login page URL for `service` at time `timestamp`.
pub fn login_page_url(service: &str, timestamp: u128) -> (u: String)
    ensures
        u@ == login_page_url_text(service@, timestamp as nat),
{
    let mut v: Vec<char> = Vec::new();
    push_str(&mut v, "https://hpc.cugb.edu.cn/sso/login?service=");
    let enc = url_encode(service);
    push_str(&mut v, enc.as_str());
    push_str(&mut v, "&t=");
    push_decimal(&mut v, timestamp);
    string_of(&v)
}

/// A clock reading in milliseconds as the login page URL carries it.
pub fn url_timestamp_of(ms: i64) -> (t: u128)
    requires
        ms >= 0,
    ensures
        t == ms,
{
    ms as u128
}

/// Milliseconds since the Unix epoch from the system clock, for the login
/// page URL: the clock reading itself.
pub fn timestamp() -> (t: u128)
    ensures
        t <= i64::MAX,
{
    url_timestamp_of(crate::cache::now_millis())
}

/// The label of the login form's submit button.
pub open spec fn submit_label() -> Seq<char> {
    "\u{767b}\u{5f55}"@
}

/// The body of the login form: the account, the encrypted password and the
/// `execution` token, each percent-encoded.
pub open spec fn login_body_text(username: Seq<char>, password: Seq<char>, execution: Seq<char>) -> Seq<
    char,
> {
    "username="@ + url_encoded(username) + "&password="@ + url_encoded(password)
        + "&encrypted=true&mode=0&captcha=&execution="@ + url_encoded(execution)
        + "&_eventId=submit&geolocation=&submit="@ + url_encoded(submit_label())
}

/// The body of the login form.
pub fn build_login_body(username: &str, password: &str, execution: &str) -> (b: String)
    ensures
        b@ == login_body_text(username@, password@, execution@),
{
    let mut v: Vec<char> = Vec::new();
    push_str(&mut v, "username=");
    push_str(&mut v, url_encode(username).as_str());
    push_str(&mut v, "&password=");
    push_str(&mut v, url_encode(password).as_str());
    push_str(&mut v, "&encrypted=true&mode=0&captcha=&execution=");
    push_str(&mut v, url_encode(execution).as_str());
    push_str(&mut v, "&_eventId=submit&geolocation=&submit=");
    push_str(&mut v, url_encode("\u{767b}\u{5f55}").as_str());
    string_of(&v)
}

/// A redirect target made absolute against the portal.
pub open spec fn resolved_url(url: Seq<char>) -> Seq<char> {
    if starts_with(url, "http"@) {
        url
    } else {
        portal_origin() + url
    }
}

/// Makes a redirect target absolute against the portal.
pub fn resolve_url(url: &str) -> (r: String)
    ensures
        r@ == resolved_url(url@),
{
    let u = chars_of(url);
    if has_prefix(&u, &chars_of("http")) {
        url.to_owned()
    } else {
        let mut v = chars_of("https://hpc.cugb.edu.cn");
        push_all(&mut v, &u);
        string_of(&v)
    }
}

/// The hidden `execution` field of the login page.
pub fn extract_execution_token(html: &str) -> (r: Result<String, GhpcError>)
    ensures
        match r {
            Ok(t) => leftmost(Pattern::ExecutionToken, html@) == Some(t@),
            Err(e) => leftmost(Pattern::ExecutionToken, html@) is None && e is ExecutionToken,
        },
{
    match find_leftmost(Pattern::ExecutionToken, &chars_of(html)) {
        Some(t) => Ok(string_of(&t)),
        None => Err(GhpcError::ExecutionToken),
    }
}

/// The target of a `window.location.href = '...'` redirect in a page.
pub fn extract_redirect_url(html: &str) -> (r: Option<String>)
    ensures
        match r {
            Some(u) => leftmost(Pattern::RedirectUrl, html@) == Some(u@),
            None => leftmost(Pattern::RedirectUrl, html@) is None,
        },
{
    match find_leftmost(Pattern::RedirectUrl, &chars_of(html)) {
        Some(u) => Some(string_of(&u)),
        None => None,
    }
}

/// The value of the first `&`-separated parameter of `params` that starts
/// with `ticket=`.
pub open spec fn first_ticket(params: Seq<char>) -> Option<Seq<char>>
    decreases params.len(),
{
    let a = find_class(params, 0, CharClass::Is('&'));
    let piece = params.subrange(0, a);
    if starts_with(piece, "ticket="@) {
        Some(piece.subrange("ticket="@.len() as int, piece.len() as int))
    } else if a >= params.len() {
        None
    } else {
        proof {
            lemma_find_class_bounds(params, 0, CharClass::Is('&'));
        }
        first_ticket(params.subrange(a + 1, params.len() as int))
    }
}

/// The service ticket of a redirect target: the `ticket` parameter of the
/// text between its first and second `?`.
pub open spec fn ticket_of(location: Seq<char>) -> Option<Seq<char>> {
    let q = find_class(location, 0, CharClass::Is('?'));
    if q >= location.len() {
        None
    } else {
        let rest = location.subrange(q + 1, location.len() as int);
        first_ticket(rest.subrange(0, find_class(rest, 0, CharClass::Is('?'))))
    }
}

/// The service ticket of a redirect target.
pub fn extract_ticket(location: &str) -> (t: Option<String>)
    ensures
        match t {
            Some(s) => ticket_of(location@) == Some(s@),
            None => ticket_of(location@) is None,
        },
{
    let loc = chars_of(location);
    let q = find_in(&loc, 0, CharClass::Is('?'));
    if q >= loc.len() {
        return None;
    }
    let rest = slice_chars(&loc, q + 1, loc.len());
    let end = find_in(&rest, 0, CharClass::Is('?'));
    let mut params = slice_chars(&rest, 0, end);
    let prefix = chars_of("ticket=");
    loop
        invariant
            ticket_of(location@) == first_ticket(params@),
            prefix@ == "ticket="@,
        decreases params.len(),
    {
        let a = find_in(&params, 0, CharClass::Is('&'));
        let piece = slice_chars(&params, 0, a);
        if has_prefix(&piece, &prefix) {
            let value = slice_chars(&piece, prefix.len(), piece.len());
            return Some(string_of(&value));
        }
        if a >= params.len() {
            return None;
        }
        params = slice_chars(&params, a + 1, params.len());
    }
}

/// The token that a user info reply yields: the first of `tokenList` when
/// `code` is `"0"`.
pub fn select_token(reply: &TokenResponse) -> (r: Result<String, GhpcError>)
    ensures
        match r {
            Ok(t) => reply.code@ == "0"@ && reply.data.token_list@.len() > 0 && t@
                == reply.data.token_list@[0].token@,
            Err(e) => e is Token && !(reply.code@ == "0"@ && reply.data.token_list@.len() > 0),
        },
{
    if !same_text(reply.code.as_str(), "0") || reply.data.token_list.len() == 0 {
        return Err(GhpcError::Token);
    }
    Ok(reply.data.token_list[0].token.clone())
}

/// The private key of a key download reply: only a reply with `code` `"0"`
/// and a `data` field is a success; otherwise its non-empty `msg` is reported.
pub fn extract_private_key(response: DownloadKeyResponse) -> (r: Result<String, GhpcError>)
    ensures
        response.code@ == "0"@ && response.data is Some ==> (r matches Ok(k) && k == response.data->0),
        !(response.code@ == "0"@ && response.data is Some) ==> match response.msg {
            Some(m) if m@.len() > 0 => (r matches Err(GhpcError::PrivateKey(Some(e))) && e@ == m@),
            _ => r matches Err(GhpcError::PrivateKey(None)),
        },
{
    let ok = same_text(response.code.as_str(), "0");
    match response.data {
        Some(key) if ok => Ok(key),
        _ => match response.msg {
            Some(m) if !m.as_str().is_empty() => Err(GhpcError::PrivateKey(Some(m))),
            _ => Err(GhpcError::PrivateKey(None)),
        },
    }
}


/// Where a login stands, as text.
pub enum StageSpec {
    AwaitPage,
    AwaitEncryption(Seq<char>),
    AwaitLoginReply,
    AwaitRedirect,
    AwaitFollow,
    AwaitToken,
    Finished,
}

/// A login in progress, as text.
pub struct LoginState {
    pub username: Seq<char>,
    pub password: Seq<char>,
    pub page_url: Seq<char>,
    pub cookies: Seq<(Seq<char>, Seq<char>)>,
    pub stage: StageSpec,
}

/// What the login asks of the caller next, as text.
pub enum ActionSpec {
    Send(RequestSpec),
    SendForToken(RequestSpec),
    Encrypt(Seq<char>),
    Done(Seq<char>),
    Fail(GhpcError),
}

/// What the login asks of the caller next.
#[derive(Debug)]
pub enum LoginAction {
    /// Send the request and hand back its reply.
    Send(HttpRequest),
    /// Send the request and hand back its JSON body as a [`TokenResponse`].
    SendForToken(HttpRequest),
    /// Encrypt this password and hand back the result.
    Encrypt(String),
    /// The login succeeded with this token.
    Done(String),
    /// The login failed.
    Fail(GhpcError),
}

impl View for LoginAction {
    type V = ActionSpec;

    open spec fn view(&self) -> ActionSpec {
        match self {
            LoginAction::Send(r) => ActionSpec::Send(r@),
            LoginAction::SendForToken(r) => ActionSpec::SendForToken(r@),
            LoginAction::Encrypt(p) => ActionSpec::Encrypt(p@),
            LoginAction::Done(t) => ActionSpec::Done(t@),
            LoginAction::Fail(e) => ActionSpec::Fail(*e),
        }
    }
}

/// What the caller hands back.
#[derive(Debug)]
pub enum LoginEvent {
    /// The reply to a [`LoginAction::Send`].
    Reply(HttpReply),
    /// The result of a [`LoginAction::Encrypt`].
    Encrypted(String),
    /// The parsed reply to a [`LoginAction::SendForToken`].
    Token(TokenResponse),
}

/// Where a login stands.
enum Stage {
    AwaitPage,
    AwaitEncryption(String),
    AwaitLoginReply,
    AwaitRedirect,
    AwaitFollow,
    AwaitToken,
    Finished,
}

/// A login in progress: the CAS login page, the form submission, the
/// single sign-on redirects and the token request, each sent by the caller.
pub struct LoginFlow {
    username: String,
    password: String,
    page_url: String,
    cookies: CookieJar,
    stage: Stage,
}

/// The cookies after a reply's `Set-Cookie` headers.
pub open spec fn after_reply(jar: Seq<(Seq<char>, Seq<char>)>, r: HttpReply) -> Seq<(Seq<char>, Seq<char>)> {
    apply_all_spec(jar, r.set_cookies@.map_values(|h: String| h@))
}

/// The login state with other cookies and stage.
pub open spec fn with_stage(s: LoginState, jar: Seq<(Seq<char>, Seq<char>)>, stage: StageSpec) -> LoginState {
    LoginState { cookies: jar, stage, ..s }
}

/// Going on to the token request with the given cookies.
pub open spec fn to_token(s: LoginState, jar: Seq<(Seq<char>, Seq<char>)>) -> (LoginState, ActionSpec) {
    (
        with_stage(s, jar, StageSpec::AwaitToken),
        ActionSpec::SendForToken(token_request_spec(cookie_header_text(jar))),
    )
}

/// The start of a login: the login page is requested.
pub open spec fn login_start(config: LoginConfig, timestamp: nat) -> (LoginState, ActionSpec) {
    let url = login_page_url_text(config.service@, timestamp);
    (
        LoginState {
            username: config.username@,
            password: config.password@,
            page_url: url,
            cookies: seq![],
            stage: StageSpec::AwaitPage,
        },
        ActionSpec::Send(page_request_spec(url)),
    )
}

/// Whether the event is the kind of answer the login waits for.
pub open spec fn accepts(s: LoginState, ev: LoginEvent) -> bool {
    match s.stage {
        StageSpec::AwaitPage | StageSpec::AwaitLoginReply | StageSpec::AwaitRedirect
        | StageSpec::AwaitFollow => ev is Reply,
        StageSpec::AwaitEncryption(_) => ev is Encrypted,
        StageSpec::AwaitToken => ev is Token,
        StageSpec::Finished => false,
    }
}

/// One step of a login: the next state and what the caller is asked to do.
pub open spec fn login_next(s: LoginState, ev: LoginEvent) -> (LoginState, ActionSpec) {
    match (s.stage, ev) {
        (StageSpec::AwaitPage, LoginEvent::Reply(r)) => {
            let jar = after_reply(s.cookies, r);
            match leftmost(Pattern::ExecutionToken, r.body@) {
                Some(e) => (
                    with_stage(s, jar, StageSpec::AwaitEncryption(e)),
                    ActionSpec::Encrypt(s.password),
                ),
                None => (
                    with_stage(s, jar, StageSpec::Finished),
                    ActionSpec::Fail(GhpcError::ExecutionToken),
                ),
            }
        },
        (StageSpec::AwaitEncryption(e), LoginEvent::Encrypted(enc)) => (
            with_stage(s, s.cookies, StageSpec::AwaitLoginReply),
            ActionSpec::Send(
                login_post_spec(
                    s.page_url,
                    cookie_header_text(s.cookies),
                    login_body_text(s.username, enc@, e),
                ),
            ),
        ),
        (StageSpec::AwaitLoginReply, LoginEvent::Reply(r)) => {
            let jar = after_reply(s.cookies, r);
            if r.status == 302 {
                match r.location {
                    Some(l) => match ticket_of(l@) {
                        Some(t) => (
                            with_stage(s, jar, StageSpec::AwaitRedirect),
                            ActionSpec::Send(
                                redirect_request_spec(ticket_url_text(t), cookie_header_text(jar)),
                            ),
                        ),
                        None => to_token(s, jar),
                    },
                    None => to_token(s, jar),
                }
            } else if r.status == 200 {
                match leftmost(Pattern::RedirectUrl, r.body@) {
                    Some(u) => (
                        with_stage(s, jar, StageSpec::AwaitRedirect),
                        ActionSpec::Send(redirect_request_spec(u, cookie_header_text(jar))),
                    ),
                    None => to_token(s, jar),
                }
            } else {
                (
                    with_stage(s, jar, StageSpec::Finished),
                    ActionSpec::Fail(GhpcError::LoginStatus(r.status)),
                )
            }
        },
        (StageSpec::AwaitRedirect, LoginEvent::Reply(r)) => {
            let jar = after_reply(s.cookies, r);
            match r.location {
                Some(l) if r.status == 302 => (
                    with_stage(s, jar, StageSpec::AwaitFollow),
                    ActionSpec::Send(redirect_request_spec(resolved_url(l@), cookie_header_text(jar))),
                ),
                _ => to_token(s, jar),
            }
        },
        (StageSpec::AwaitFollow, LoginEvent::Reply(r)) => to_token(s, after_reply(s.cookies, r)),
        (StageSpec::AwaitToken, LoginEvent::Token(t)) => {
            if t.code@ == "0"@ && t.data.token_list@.len() > 0 {
                (
                    with_stage(s, s.cookies, StageSpec::Finished),
                    ActionSpec::Done(t.data.token_list@[0].token@),
                )
            } else {
                (with_stage(s, s.cookies, StageSpec::Finished), ActionSpec::Fail(GhpcError::Token))
            }
        },
        _ => (with_stage(s, s.cookies, StageSpec::Finished), ActionSpec::Fail(GhpcError::Token)),
    }
}

impl View for LoginFlow {
    type V = LoginState;

    closed spec fn view(&self) -> LoginState {
        LoginState {
            username: self.username@,
            password: self.password@,
            page_url: self.page_url@,
            cookies: self.cookies@,
            stage: match self.stage {
                Stage::AwaitPage => StageSpec::AwaitPage,
                Stage::AwaitEncryption(e) => StageSpec::AwaitEncryption(e@),
                Stage::AwaitLoginReply => StageSpec::AwaitLoginReply,
                Stage::AwaitRedirect => StageSpec::AwaitRedirect,
                Stage::AwaitFollow => StageSpec::AwaitFollow,
                Stage::AwaitToken => StageSpec::AwaitToken,
                Stage::Finished => StageSpec::Finished,
            },
        }
    }
}

impl LoginFlow {
    /// The flow's internal shape.
    pub closed spec fn wf(&self) -> bool {
        self.cookies.wf()
    }

    /// Starts a login for `config` at time `timestamp` (milliseconds).
    pub fn new(config: &LoginConfig, timestamp: u128) -> (r: (LoginFlow, LoginAction))
        ensures
            r.0.wf(),
            (r.0@, r.1@) == login_start(*config, timestamp as nat),
    {
        let url = login_page_url(config.service.as_str(), timestamp);
        let request = page_request(url.as_str());
        let jar = CookieJar::new();
        let flow = LoginFlow {
            username: config.username.clone(),
            password: config.password.clone(),
            page_url: url,
            cookies: jar,
            stage: Stage::AwaitPage,
        };
        (flow, LoginAction::Send(request))
    }

    /// Whether the event is the kind of answer the login waits for.
    pub fn accepts(&self, event: &LoginEvent) -> (b: bool)
        ensures
            b == accepts(self@, *event),
    {
        match (&self.stage, event) {
            (Stage::AwaitPage, LoginEvent::Reply(_)) => true,
            (Stage::AwaitLoginReply, LoginEvent::Reply(_)) => true,
            (Stage::AwaitRedirect, LoginEvent::Reply(_)) => true,
            (Stage::AwaitFollow, LoginEvent::Reply(_)) => true,
            (Stage::AwaitEncryption(_), LoginEvent::Encrypted(_)) => true,
            (Stage::AwaitToken, LoginEvent::Token(_)) => true,
            _ => false,
        }
    }

    fn go_to_token(&mut self) -> (a: LoginAction)
        requires
            old(self).wf(),
        ensures
            final(self).wf(),
            (final(self)@, a@) == to_token(old(self)@, old(self)@.cookies),
    {
        let cookie = self.cookies.cookie_header();
        self.stage = Stage::AwaitToken;
        LoginAction::SendForToken(token_request(cookie.as_str()))
    }

    /// Takes the caller's answer and says what to do next.
    pub fn step(&mut self, event: LoginEvent) -> (a: LoginAction)
        requires
            old(self).wf(),
            accepts(old(self)@, event),
        ensures
            final(self).wf(),
            (final(self)@, a@) == login_next(old(self)@, event),
    {
        let mut stage = Stage::Finished;
        std::mem::swap(&mut stage, &mut self.stage);
        match (stage, event) {
            (Stage::AwaitPage, LoginEvent::Reply(r)) => {
                self.cookies.update_cookies(&r.set_cookies);
                match extract_execution_token(r.body.as_str()) {
                    Ok(e) => {
                        self.stage = Stage::AwaitEncryption(e);
                        LoginAction::Encrypt(self.password.clone())
                    },
                    Err(_) => LoginAction::Fail(GhpcError::ExecutionToken),
                }
            },
            (Stage::AwaitEncryption(e), LoginEvent::Encrypted(enc)) => {
                let cookie = self.cookies.cookie_header();
                let body = build_login_body(self.username.as_str(), enc.as_str(), e.as_str());
                self.stage = Stage::AwaitLoginReply;
                LoginAction::Send(login_post(self.page_url.as_str(), cookie.as_str(), body.as_str()))
            },
            (Stage::AwaitLoginReply, LoginEvent::Reply(r)) => {
                self.cookies.update_cookies(&r.set_cookies);
                if r.status == 302 {
                    let ticket = match &r.location {
                        Some(l) => extract_ticket(l.as_str()),
                        None => None,
                    };
                    match ticket {
                        Some(t) => {
                            let cookie = self.cookies.cookie_header();
                            self.stage = Stage::AwaitRedirect;
                            LoginAction::Send(redirect_request(ticket_url(t.as_str()).as_str(), cookie.as_str()))
                        },
                        None => self.go_to_token(),
                    }
                } else if r.status == 200 {
                    match extract_redirect_url(r.body.as_str()) {
                        Some(u) => {
                            let cookie = self.cookies.cookie_header();
                            self.stage = Stage::AwaitRedirect;
                            LoginAction::Send(redirect_request(u.as_str(), cookie.as_str()))
                        },
                        None => self.go_to_token(),
                    }
                } else {
                    LoginAction::Fail(GhpcError::LoginStatus(r.status))
                }
            },
            (Stage::AwaitRedirect, LoginEvent::Reply(r)) => {
                self.cookies.update_cookies(&r.set_cookies);
                match &r.location {
                    Some(l) if r.status == 302 => {
                        let cookie = self.cookies.cookie_header();
                        self.stage = Stage::AwaitFollow;
                        LoginAction::Send(redirect_request(resolve_url(l.as_str()).as_str(), cookie.as_str()))
                    },
                    _ => self.go_to_token(),
                }
            },
            (Stage::AwaitFollow, LoginEvent::Reply(r)) => {
                self.cookies.update_cookies(&r.set_cookies);
                self.go_to_token()
            },
            (Stage::AwaitToken, LoginEvent::Token(t)) => {
                match select_token(&t) {
                    Ok(token) => LoginAction::Done(token),
                    Err(_) => LoginAction::Fail(GhpcError::Token),
                }
            },
            _ => LoginAction::Fail(GhpcError::Token),
        }
    }
}


/// How far a login has come; every step moves it strictly forward.
pub open spec fn stage_rank(st: StageSpec) -> int {
    match st {
        StageSpec::AwaitPage => 0,
        StageSpec::AwaitEncryption(_) => 1,
        StageSpec::AwaitLoginReply => 2,
        StageSpec::AwaitRedirect => 3,
        StageSpec::AwaitFollow => 4,
        StageSpec::AwaitToken => 5,
        StageSpec::Finished => 6,
    }
}

/// Law: every step of a login moves it strictly forward, so a login ends
/// after at most six answers; the account and login page never change.
pub proof fn lemma_login_progresses(s: LoginState, ev: LoginEvent)
    requires
        accepts(s, ev),
    ensures
        stage_rank(login_next(s, ev).0.stage) > stage_rank(s.stage),
        login_next(s, ev).0.username == s.username,
        login_next(s, ev).0.password == s.password,
        login_next(s, ev).0.page_url == s.page_url,
{
}

/// Law: the password leaves the login only to be encrypted. The one request
/// with a body is the login form, sent right after the encrypted password
/// came back, and it carries that encrypted value, never the password held.
pub proof fn lemma_password_only_encrypted(s: LoginState, ev: LoginEvent)
    requires
        accepts(s, ev),
    ensures
        login_next(s, ev).1 matches ActionSpec::Encrypt(p) ==> p == s.password,
        login_next(s, ev).1 matches ActionSpec::Send(req) ==> (req.body is Some ==> (s.stage
            matches StageSpec::AwaitEncryption(e) && (ev matches LoginEvent::Encrypted(enc)
            && req.body == Some(login_body_text(s.username, enc@, e))))),
        login_next(s, ev).1 matches ActionSpec::SendForToken(req) ==> req.body is None,
{
}

/// Law: every request of a login after the first carries, as its first
/// header, the `Cookie` header of the session's cookies, including those
/// that the reply just received set.
pub proof fn lemma_requests_carry_cookies(s: LoginState, ev: LoginEvent)
    requires
        accepts(s, ev),
    ensures
        ({
            let (next, a) = login_next(s, ev);
            &&& a matches ActionSpec::Send(req) ==> req.headers[0] == ("Cookie"@, cookie_header_text(next.cookies))
            &&& a matches ActionSpec::SendForToken(req) ==> req.headers[0] == ("Cookie"@, cookie_header_text(next.cookies))
        }),
{
}

/// Law: a login form answered with neither a redirect (302) nor a page (200)
/// fails with that status; a token is only ever the first of a user info
/// reply whose `code` is `"0"`.
pub proof fn lemma_login_outcomes(s: LoginState, ev: LoginEvent)
    requires
        accepts(s, ev),
    ensures
        (s.stage is AwaitLoginReply && (ev matches LoginEvent::Reply(r) && r.status != 200 && r.status != 302))
            ==> login_next(s, ev).1 == ActionSpec::Fail(GhpcError::LoginStatus(ev->Reply_0.status)),
        login_next(s, ev).1 matches ActionSpec::Done(t) ==> (ev matches LoginEvent::Token(reply)
            && reply.code@ == "0"@ && reply.data.token_list@.len() > 0 && t
            == reply.data.token_list@[0].token@),
{
}

/// The texts of a reply's `Set-Cookie` headers.
pub open spec fn set_cookie_texts(r: HttpReply) -> Seq<Seq<char>> {
    r.set_cookies@.map_values(|h: String| h@)
}

/// Law: every reply that a login receives, at every stage and whatever comes
/// next, has its `Set-Cookie` headers applied in order to the session's
/// cookies; the other answers leave the cookies as they are, and no cookie
/// name ever occurs twice. So a cookie that the reply's last header sets to
/// `name=value` is in the jar afterwards, and the token request that follows
/// the reply of the followed redirect goes to the user info endpoint carrying
/// the cookies that this reply set.
pub proof fn lemma_replies_set_cookies(
    s: LoginState,
    ev: LoginEvent,
    name: Seq<char>,
    value: Seq<char>,
    attributes: Seq<char>,
)
    requires
        accepts(s, ev),
        names_distinct(s.cookies),
    ensures
        ({
            let (next, a) = login_next(s, ev);
            &&& ev matches LoginEvent::Reply(r) ==> next.cookies == apply_all_spec(
                s.cookies,
                set_cookie_texts(r),
            )
            &&& !(ev is Reply) ==> next.cookies == s.cookies
            &&& names_distinct(next.cookies)
            &&& ev matches LoginEvent::Reply(r) ==> (set_cookie_texts(r).len() > 0
                && set_cookie_texts(r).last() == name + "="@ + value + attributes
                && !has_char(name, '=') && !has_char(name, ';') && !has_char(value, ';')
                && (attributes.len() == 0 || attributes[0] == ';') ==> jar_get(next.cookies, name)
                == Some(value))
            &&& (s.stage is AwaitFollow && ev is Reply) ==> (a matches ActionSpec::SendForToken(req)
                && req.url == "https://hpc.cugb.edu.cn/ac/api/user/getCurrentUserInfo.action?includeToken=true&refresh=true"@
                && req.headers[0] == ("Cookie"@, cookie_header_text(next.cookies)))
        }),
{
    match ev {
        LoginEvent::Reply(r) => {
            let hs = set_cookie_texts(r);
            lemma_apply_all_keeps_distinct(s.cookies, hs);
            if hs.len() > 0 && hs.last() == name + "="@ + value + attributes && !has_char(name, '=')
                && !has_char(name, ';') && !has_char(value, ';') && (attributes.len() == 0
                || attributes[0] == ';') {
                let before = apply_all_spec(s.cookies, hs.drop_last());
                lemma_apply_all_keeps_distinct(s.cookies, hs.drop_last());
                lemma_set_cookie_sets(before, name, value, attributes, name);
            }
        },
        _ => {},
    }
}

} // verus!
