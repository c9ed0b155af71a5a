use taurus::address::{room_for, room_for_bytes};
use taurus::client::{Action, Client, Event, Request, Step, DEFAULT_PORT, REDIRECT_LIMIT};
use taurus::error::GeminiError;
use taurus::response::GeminiResponse;
use taurus::status::{PermanentFailureStatus, RedirectStatus};
use url::Url;

fn address(text: &str) -> Url {
    Url::parse(text).unwrap()
}

fn redirect(to: &str) -> GeminiResponse {
    GeminiResponse::Redirect { status: RedirectStatus::Temporary, url: address(to) }
}

#[test]
fn a_request_names_host_port_and_line() {
    let client = Client::new(true);
    assert_eq!(
        client.prepare(address("gemini://example.org/page?q=1")),
        Ok(Request {
            host: "example.org".to_string(),
            port: 1965,
            line: b"gemini://example.org/page?q=1\r\n".to_vec(),
        })
    );
}

#[test]
fn an_empty_path_becomes_the_root() {
    let client = Client::new(false);
    assert_eq!(
        client.prepare(address("gemini://example.org")),
        Ok(Request {
            host: "example.org".to_string(),
            port: DEFAULT_PORT,
            line: b"gemini://example.org/\r\n".to_vec(),
        })
    );
    assert_eq!(
        client.prepare(address("gemini://example.org?q")).unwrap().line,
        b"gemini://example.org/?q\r\n".to_vec()
    );
}

#[test]
fn a_named_port_is_kept() {
    let client = Client::new(false);
    let request = client.prepare(address("gemini://example.org:1966/")).unwrap();
    assert_eq!(request.port, 1966);
    assert_eq!(request.host, "example.org");
    assert_eq!(request.line, b"gemini://example.org:1966/\r\n".to_vec());
}

#[test]
fn a_host_may_be_a_number() {
    let client = Client::new(false);
    let request = client.prepare(address("gemini://127.0.0.1/x")).unwrap();
    assert_eq!(request.host, "127.0.0.1");
    assert_eq!(request.port, 1965);
}

#[test]
fn another_scheme_is_a_scheme_error() {
    let client = Client::new(true);
    assert_eq!(client.prepare(address("https://example.org/")), Err(GeminiError::SchemeError));
    assert_eq!(client.prepare(address("gemini2://example.org/")), Err(GeminiError::SchemeError));
    assert_eq!(client.prepare(address("mailto:someone@example.org")), Err(GeminiError::SchemeError));
}

#[test]
fn an_address_without_a_host_is_an_address_error() {
    let client = Client::new(true);
    assert_eq!(client.prepare(address("gemini:/only/a/path")), Err(GeminiError::AddressError));
    assert_eq!(client.prepare(address("gemini:opaque")), Err(GeminiError::AddressError));
}

#[test]
fn the_client_defaults_have_their_values() {
    assert_eq!(DEFAULT_PORT, 1965);
    assert_eq!(REDIRECT_LIMIT, 5);
    let client = Client::new(true);
    assert!(client.auto_redirect());
    assert_eq!(client.redirect_limit(), 5);
    let client = Client::new(false);
    assert!(!client.auto_redirect());
    let client = Client::with_redirect_limit(2);
    assert!(client.auto_redirect());
    assert_eq!(client.redirect_limit(), 2);
}

#[test]
fn a_redirect_is_followed_up_to_the_limit() {
    let client = Client::with_redirect_limit(2);
    let mut exchange = client.begin();
    assert_eq!(
        client.settle(&mut exchange, redirect("gemini://a/")),
        Ok(Step::Follow(address("gemini://a/")))
    );
    assert_eq!(
        client.settle(&mut exchange, redirect("gemini://b/")),
        Ok(Step::Follow(address("gemini://b/")))
    );
    assert_eq!(
        client.settle(&mut exchange, redirect("gemini://a/")),
        Err(GeminiError::RedirectLoopError)
    );
    assert_eq!(
        client.settle(&mut exchange, redirect("gemini://a/")),
        Err(GeminiError::RedirectLoopError)
    );
}

#[test]
fn a_redirect_cycle_ends_after_the_default_limit() {
    let client = Client::new(true);
    let mut exchange = client.begin();
    let mut followed = 0;
    loop {
        match client.settle(&mut exchange, redirect("gemini://loop/")) {
            Ok(Step::Follow(_)) => followed += 1,
            Err(e) => {
                assert_eq!(e, GeminiError::RedirectLoopError);
                break;
            }
            other => panic!("{other:?}"),
        }
    }
    assert_eq!(followed, 5);
}

#[test]
fn a_client_that_follows_nothing_delivers_the_redirect() {
    let client = Client::new(false);
    let mut exchange = client.begin();
    assert_eq!(
        client.settle(&mut exchange, redirect("gemini://a/")),
        Ok(Step::Deliver(redirect("gemini://a/")))
    );
}

#[test]
fn with_no_redirects_allowed_the_first_is_a_loop() {
    let client = Client::with_redirect_limit(0);
    let mut exchange = client.begin();
    assert_eq!(
        client.settle(&mut exchange, redirect("gemini://a/")),
        Err(GeminiError::RedirectLoopError)
    );
}

#[test]
fn other_replies_are_delivered_and_count_as_no_redirect() {
    let client = Client::with_redirect_limit(1);
    let mut exchange = client.begin();
    let failure = GeminiResponse::PermanentFailure {
        status: PermanentFailureStatus::Gone,
        error_msg: None,
    };
    for _ in 0..3 {
        assert_eq!(
            client.settle(&mut exchange, failure.clone()),
            Ok(Step::Deliver(failure.clone()))
        );
    }
    assert_eq!(
        client.settle(&mut exchange, redirect("gemini://a/")),
        Ok(Step::Follow(address("gemini://a/")))
    );
}

#[test]
fn an_address_has_room_for_a_short_part() {
    let url = address("gemini://example.org/");
    assert!(room_for(&url, "/"));
    assert!(room_for(&url, ""));
    assert!(room_for(&url, "a query of some length"));
    // 21 bytes are held; 3 bytes for each new one and 4 more must fit in 32 bits.
    assert!(room_for_bytes(&url, 1_431_655_756));
    assert!(!room_for_bytes(&url, 1_431_655_757));
    assert!(!room_for_bytes(&url, usize::MAX));
}

fn reply(bytes: &[u8]) -> Event {
    Event::Reply { token: bytes[..3].to_vec(), rest: bytes[3..].to_vec() }
}

fn send(host: &str, line: &[u8]) -> Action {
    Action::Send(Request { host: host.to_string(), port: 1965, line: line.to_vec() })
}

#[test]
fn an_exchange_starts_with_the_request() {
    let client = Client::new(true);
    let mut exchange = client.begin();
    assert_eq!(
        client.step(&mut exchange, Event::Start(address("gemini://a.org"))),
        send("a.org", b"gemini://a.org/\r\n")
    );
    let mut exchange = client.begin();
    assert_eq!(
        client.step(&mut exchange, Event::Start(address("https://a.org/"))),
        Action::Fail(GeminiError::SchemeError)
    );
}

#[test]
fn an_exchange_follows_redirects_and_delivers_the_last_reply() {
    let client = Client::new(true);
    let mut exchange = client.begin();
    assert_eq!(
        client.step(&mut exchange, Event::Start(address("gemini://a.org/"))),
        send("a.org", b"gemini://a.org/\r\n")
    );
    assert_eq!(
        client.step(&mut exchange, reply(b"31 gemini://b.org/x\r\n")),
        send("b.org", b"gemini://b.org/x\r\n")
    );
    assert_eq!(
        client.step(&mut exchange, reply(b"30 gemini://c.org\r\n")),
        send("c.org", b"gemini://c.org/\r\n")
    );
    assert_eq!(
        client.step(&mut exchange, reply(b"20 text/gemini\r\n# c")),
        Action::Deliver(GeminiResponse::Success {
            mime: "text/gemini".to_string(),
            body: b"# c".to_vec()
        })
    );
}

#[test]
fn an_exchange_fails_on_a_bad_reply_or_a_bad_target() {
    let client = Client::new(true);
    let mut exchange = client.begin();
    assert_eq!(
        client.step(&mut exchange, reply(b"99 ")),
        Action::Fail(GeminiError::ProtocolError)
    );
    assert_eq!(
        client.step(&mut exchange, reply(b"10 \xff")),
        Action::Fail(GeminiError::EncodingError)
    );
    assert_eq!(
        client.step(&mut exchange, reply(b"30 not an address")),
        Action::Fail(GeminiError::AddressResolutionError)
    );
    assert_eq!(
        client.step(&mut exchange, reply(b"30 https://web.org/\r\n")),
        Action::Fail(GeminiError::SchemeError)
    );
    assert_eq!(
        client.step(&mut exchange, reply(b"30 gemini:/no/host\r\n")),
        Action::Fail(GeminiError::AddressError)
    );
}

#[test]
fn an_exchange_in_a_redirect_cycle_ends_in_a_loop_error() {
    let client = Client::new(true);
    let mut exchange = client.begin();
    let mut action = client.step(&mut exchange, Event::Start(address("gemini://a.org/")));
    let mut sent = 0;
    while let Action::Send(_) = action {
        sent += 1;
        assert!(sent <= 6);
        action = client.step(&mut exchange, reply(b"30 gemini://a.org/\r\n"));
    }
    assert_eq!(sent, 6);
    assert_eq!(action, Action::Fail(GeminiError::RedirectLoopError));
}

#[test]
fn an_exchange_without_auto_follow_delivers_the_redirect() {
    let client = Client::new(false);
    let mut exchange = client.begin();
    assert_eq!(
        client.step(&mut exchange, reply(b"30 gemini://b.org/\r\n")),
        Action::Deliver(redirect("gemini://b.org/"))
    );
}
