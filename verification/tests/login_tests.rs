use ghpc::errors::GhpcError;
use ghpc::http::{HttpMethod, HttpReply};
use ghpc::login::{
    build_login_body, extract_execution_token, extract_private_key, extract_redirect_url,
    extract_ticket, login_page_url, resolve_url, select_token, timestamp, url_encode,
    url_timestamp_of, LoginAction, LoginEvent, LoginFlow,
};
use ghpc::session::CookieJar;
use ghpc::types::{DownloadKeyResponse, LoginConfig, TokenData, TokenItem, TokenResponse};

#[test]
fn execution_token_is_found() {
    let html = "<input type=\"hidden\" name=\"execution\"  \n\tvalue=\"e1s1-abc\"/>";
    assert_eq!(extract_execution_token(html).unwrap(), "e1s1-abc");
    let first = "name=\"execution\" value=\"one\" name=\"execution\" value=\"two\"";
    assert_eq!(extract_execution_token(first).unwrap(), "one");
}

#[test]
fn execution_token_needs_space_and_value() {
    for html in [
        "name=\"execution\"value=\"x\"",
        "name=\"execution\" value=\"\"",
        "name=\"execution\" value=\"unterminated",
        "<html>login</html>",
    ] {
        let err = extract_execution_token(html).unwrap_err();
        assert!(matches!(err, GhpcError::ExecutionToken));
        assert_eq!(err.message(), "Failed to get execution token");
    }
    assert_eq!(
        extract_execution_token("name=\"execution\" value=\"\" name=\"execution\" value=\"ok\"").unwrap(),
        "ok"
    );
}

#[test]
fn redirect_url_is_found() {
    assert_eq!(
        extract_redirect_url("<script>window.location.href = 'https://x/a?b=1';</script>").as_deref(),
        Some("https://x/a?b=1")
    );
    assert_eq!(
        extract_redirect_url("window.location.href=\"/ac/home\"").as_deref(),
        Some("/ac/home")
    );
    assert_eq!(extract_redirect_url("window.location.href = 'a\"b'").as_deref(), Some("a"));
    assert_eq!(extract_redirect_url("windowXlocation.href = 'a'"), None);
    assert_eq!(extract_redirect_url("window.location.href = ''"), None);
}

#[test]
fn ticket_is_found() {
    assert_eq!(
        extract_ticket("https://h/ac/login?service=x&ticket=ST-12-abc").as_deref(),
        Some("ST-12-abc")
    );
    assert_eq!(extract_ticket("https://h/?ticket=T1&ticket=T2").as_deref(), Some("T1"));
    assert_eq!(extract_ticket("https://h/?ticket=").as_deref(), Some(""));
    assert_eq!(extract_ticket("https://h/?a=1?ticket=T"), None);
    assert_eq!(extract_ticket("https://h/ticket=T"), None);
    assert_eq!(extract_ticket("https://h/?xticket=T"), None);
}

#[test]
fn urls_are_resolved() {
    assert_eq!(resolve_url("/ac/index"), "https://hpc.cugb.edu.cn/ac/index");
    assert_eq!(resolve_url("https://other/x"), "https://other/x");
    assert_eq!(resolve_url("httpfoo"), "httpfoo");
}

#[test]
fn url_encoding_and_form_body() {
    assert_eq!(url_encode("a b/c~_.-Z9"), "a%20b%2Fc~_.-Z9");
    assert_eq!(url_encode("\u{767b}\u{5f55}"), "%E7%99%BB%E5%BD%95");
    assert_eq!(
        build_login_body("u 1", "p+w", "e&1"),
        "username=u%201&password=p%2Bw&encrypted=true&mode=0&captcha=&execution=e%261&_eventId=submit&geolocation=&submit=%E7%99%BB%E5%BD%95"
    );
    assert_eq!(
        login_page_url("https://hpc.cugb.edu.cn/ac/api/auth/loginSsoRedirect.action", 1234),
        "https://hpc.cugb.edu.cn/sso/login?service=https%3A%2F%2Fhpc.cugb.edu.cn%2Fac%2Fapi%2Fauth%2FloginSsoRedirect.action&t=1234"
    );
}

fn token_reply(code: &str, tokens: &[&str]) -> TokenResponse {
    TokenResponse {
        code: code.to_string(),
        data: TokenData { token_list: tokens.iter().map(|t| TokenItem { token: t.to_string() }).collect() },
        msg: None,
    }
}

#[test]
fn first_token_is_selected() {
    assert_eq!(select_token(&token_reply("0", &["a", "b"])).unwrap(), "a");
    let err = select_token(&token_reply("0", &[])).unwrap_err();
    assert_eq!(err.message(), "Failed to get token");
    assert!(select_token(&token_reply("1", &["a"])).is_err());
}

#[test]
fn private_key_needs_success_shape() {
    let ok = DownloadKeyResponse { code: "0".into(), data: Some("KEY".into()), msg: None };
    assert_eq!(extract_private_key(ok).unwrap(), "KEY");
    let msg = DownloadKeyResponse { code: "1".into(), data: Some("KEY".into()), msg: Some("expired".into()) };
    assert_eq!(extract_private_key(msg).unwrap_err().message(), "Failed to get private key: expired");
    let empty = DownloadKeyResponse { code: "0".into(), data: None, msg: Some(String::new()) };
    assert_eq!(extract_private_key(empty).unwrap_err().message(), "Failed to get private key");
    let none = DownloadKeyResponse { code: "0".into(), data: None, msg: None };
    assert!(matches!(extract_private_key(none), Err(GhpcError::PrivateKey(None))));
}

#[test]
fn cookies_keep_their_place() {
    let mut jar = CookieJar::new();
    assert_eq!(jar.cookie_header(), "");
    jar.apply_set_cookie("JSESSIONID=abc; Path=/; HttpOnly");
    jar.apply_set_cookie("CASTGC=x=y");
    jar.apply_set_cookie("novalue; Path=/");
    assert_eq!(jar.cookie_header(), "JSESSIONID=abc; CASTGC=x=y");
    jar.update_cookies(&vec!["JSESSIONID=def".to_string(), "lang=zh".to_string()]);
    assert_eq!(jar.cookie_header(), "JSESSIONID=def; CASTGC=x=y; lang=zh");
    assert_eq!(jar.get("JSESSIONID").as_deref(), Some("def"));
    assert_eq!(jar.get("missing"), None);
    jar.insert(String::new(), "v".to_string());
    assert_eq!(jar.get("").as_deref(), Some("v"));
}

fn reply(status: u16, location: Option<&str>, cookies: &[&str], body: &str) -> LoginEvent {
    LoginEvent::Reply(HttpReply {
        status,
        location: location.map(|l| l.to_string()),
        set_cookies: cookies.iter().map(|c| c.to_string()).collect(),
        body: body.to_string(),
    })
}

fn header<'a>(req: &'a ghpc::http::HttpRequest, name: &str) -> Option<&'a str> {
    req.headers.iter().find(|(n, _)| n == name).map(|(_, v)| v.as_str())
}

fn config() -> LoginConfig {
    LoginConfig {
        username: "alice".into(),
        password: "pw".into(),
        service: "https://hpc.cugb.edu.cn/ac/api/auth/loginSsoRedirect.action".into(),
    }
}

#[test]
fn login_through_ticket_redirect() {
    let (mut flow, first) = LoginFlow::new(&config(), 42);
    match first {
        LoginAction::Send(req) => {
            assert_eq!(req.method, HttpMethod::Get);
            assert!(req.url.ends_with("&t=42"));
            assert_eq!(header(&req, "Cookie"), None);
        }
        other => panic!("unexpected {:?}", other),
    }
    let page = "<input name=\"execution\" value=\"EXEC\">";
    match flow.step(reply(200, None, &["JSESSIONID=abc; Path=/"], page)) {
        LoginAction::Encrypt(p) => assert_eq!(p, "pw"),
        other => panic!("unexpected {:?}", other),
    }
    match flow.step(LoginEvent::Encrypted("ENC=".into())) {
        LoginAction::Send(req) => {
            assert_eq!(req.method, HttpMethod::Post);
            assert_eq!(header(&req, "Cookie"), Some("JSESSIONID=abc"));
            assert_eq!(header(&req, "Referer"), Some(req.url.as_str()));
            let body = req.body.clone().unwrap();
            assert!(body.starts_with("username=alice&password=ENC%3D&encrypted=true"));
            assert!(body.contains("execution=EXEC&"));
            assert!(!body.contains("pw&"));
        }
        other => panic!("unexpected {:?}", other),
    }
    let location = "https://hpc.cugb.edu.cn/ac/api/auth/loginSsoRedirect.action?ticket=ST-1";
    match flow.step(reply(302, Some(location), &["CASTGC=tgc"], "")) {
        LoginAction::Send(req) => {
            assert_eq!(req.url, location);
            assert_eq!(header(&req, "Cookie"), Some("JSESSIONID=abc; CASTGC=tgc"));
        }
        other => panic!("unexpected {:?}", other),
    }
    match flow.step(reply(302, Some("/ac/home"), &["SESSION=s"], "")) {
        LoginAction::Send(req) => {
            assert_eq!(req.url, "https://hpc.cugb.edu.cn/ac/home");
            assert_eq!(header(&req, "Cookie"), Some("JSESSIONID=abc; CASTGC=tgc; SESSION=s"));
        }
        other => panic!("unexpected {:?}", other),
    }
    match flow.step(reply(200, None, &[], "")) {
        LoginAction::SendForToken(req) => {
            assert!(req.url.contains("getCurrentUserInfo.action"));
            assert_eq!(header(&req, "Accept"), Some("application/json"));
        }
        other => panic!("unexpected {:?}", other),
    }
    let event = LoginEvent::Token(token_reply("0", &["JWT"]));
    assert!(flow.accepts(&event));
    match flow.step(event) {
        LoginAction::Done(t) => assert_eq!(t, "JWT"),
        other => panic!("unexpected {:?}", other),
    }
}

#[test]
fn login_through_script_redirect_and_failures() {
    let page = "<input name=\"execution\" value=\"E\">";
    let (mut flow, _) = LoginFlow::new(&config(), 1);
    flow.step(reply(200, None, &[], page));
    flow.step(LoginEvent::Encrypted("X".into()));
    match flow.step(reply(200, None, &[], "window.location.href='https://next/'")) {
        LoginAction::Send(req) => assert_eq!(req.url, "https://next/"),
        other => panic!("unexpected {:?}", other),
    }
    assert!(matches!(flow.step(reply(200, None, &[], "")), LoginAction::SendForToken(_)));
    assert!(matches!(flow.step(LoginEvent::Token(token_reply("0", &[]))), LoginAction::Fail(GhpcError::Token)));

    let (mut flow, _) = LoginFlow::new(&config(), 1);
    flow.step(reply(200, None, &[], page));
    flow.step(LoginEvent::Encrypted("X".into()));
    match flow.step(reply(401, None, &[], "")) {
        LoginAction::Fail(e) => assert_eq!(e.message(), "Login failed, status: 401"),
        other => panic!("unexpected {:?}", other),
    }

    let (mut flow, _) = LoginFlow::new(&config(), 1);
    assert!(!flow.accepts(&LoginEvent::Encrypted("x".into())));
    assert!(matches!(flow.step(reply(200, None, &[], "no form")), LoginAction::Fail(GhpcError::ExecutionToken)));

    let (mut flow, _) = LoginFlow::new(&config(), 1);
    flow.step(reply(200, None, &[], page));
    flow.step(LoginEvent::Encrypted("X".into()));
    assert!(matches!(flow.step(reply(302, Some("https://h/no-ticket"), &[], "")), LoginAction::SendForToken(_)));
}

#[test]
fn login_page_timestamp_is_the_clock_reading() {
    assert_eq!(url_timestamp_of(0), 0);
    assert_eq!(url_timestamp_of(1_700_000_000_123), 1_700_000_000_123);
    let t = timestamp();
    assert!(t > 1_600_000_000_000 && t <= i64::MAX as u128);
}
