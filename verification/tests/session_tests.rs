use taurus::content::{Body, Content};
use taurus::error::GeminiError;
use taurus::response::GeminiResponse;
use taurus::session::{App, AppStatus, Command, Flow};
use taurus::status::{InputStatus, RedirectStatus, TemporaryFailureStatus};
use url::Url;

fn address(text: &str) -> Url {
    Url::parse(text).unwrap()
}

fn page(text: &str) -> GeminiResponse {
    GeminiResponse::Success { mime: "text/gemini".to_string(), body: text.as_bytes().to_vec() }
}

fn browsing(start: &str, text: &str) -> App {
    let mut app = App::new(address(start));
    assert_eq!(app.load_site(Ok(page(text))), Ok(()));
    assert_eq!(app.status(), &AppStatus::Browsing);
    app
}

fn type_line(app: &mut App, line: &str) {
    assert_eq!(app.handle(Command::Char('i')), Ok(Flow::Continue));
    for c in line.chars() {
        assert_eq!(app.handle(Command::Char(c)), Ok(Flow::Continue));
    }
    assert_eq!(app.status(), &AppStatus::Typing(line.to_string()));
}

#[test]
fn status_names() {
    assert_eq!(AppStatus::Browsing.as_str(), "Browsing");
    assert_eq!(AppStatus::Typing("x".to_string()).as_str(), "Typing");
    assert_eq!(AppStatus::Loading.as_str(), "Loading");
    assert_eq!(AppStatus::Input(String::new()).as_str(), "Input");
}

#[test]
fn a_new_session_is_loading_its_start() {
    let app = App::new(address("gemini://start/"));
    assert!(app.is_loading());
    assert_eq!(app.status(), &AppStatus::Loading);
    assert_eq!(app.current(), address("gemini://start/"));
    assert_eq!(app.content(), None);
    assert_eq!(app.scroll(), (0, 0));
}

#[test]
fn a_loading_session_takes_no_command() {
    let mut app = App::new(address("gemini://start/"));
    for command in [
        Command::Cancel,
        Command::Submit,
        Command::Char('i'),
        Command::Char('<'),
        Command::ScrollDown,
        Command::PageDown(10),
    ] {
        assert_eq!(app.handle(command), Ok(Flow::Continue));
        assert!(app.is_loading());
        assert_eq!(app.scroll(), (0, 0));
        assert_eq!(app.current(), address("gemini://start/"));
    }
}

#[test]
fn a_success_is_shown_and_browsed() {
    let app = browsing("gemini://start/", "hello\n");
    assert_eq!(
        app.content(),
        Some(&Content { mime: "text/gemini".to_string(), body: Body::String("hello\n".to_string()) })
    );
    assert!(!app.is_loading());
}

#[test]
fn a_success_that_is_no_text_is_shown_as_bytes() {
    let mut app = App::new(address("gemini://start/"));
    let reply = GeminiResponse::Success { mime: "image/png".to_string(), body: vec![0xff, 0xd8] };
    assert_eq!(app.load_site(Ok(reply)), Ok(()));
    assert_eq!(
        app.content(),
        Some(&Content { mime: "image/png".to_string(), body: Body::Bytes(vec![0xff, 0xd8]) })
    );
    assert_eq!(app.status(), &AppStatus::Browsing);
}

#[test]
fn a_text_that_is_no_utf8_fails_the_load() {
    let mut app = App::new(address("gemini://start/"));
    let reply = GeminiResponse::Success { mime: "text/plain".to_string(), body: vec![0xff] };
    assert_eq!(app.load_site(Ok(reply)), Err(GeminiError::EncodingError));
    assert!(app.is_loading());
    assert_eq!(app.content(), None);
}

#[test]
fn a_question_is_shown_as_plain_text_and_waits_for_input() {
    let mut app = App::new(address("gemini://start/search"));
    let reply = GeminiResponse::Input { status: InputStatus::Normal, prompt: "Term?".to_string() };
    assert_eq!(app.load_site(Ok(reply)), Ok(()));
    assert_eq!(app.status(), &AppStatus::Input(String::new()));
    assert_eq!(
        app.content(),
        Some(&Content { mime: "text/plain".to_string(), body: Body::String("Term?".to_string()) })
    );
}

#[test]
fn other_replies_are_not_handled() {
    let mut app = App::new(address("gemini://start/"));
    let redirect =
        GeminiResponse::Redirect { status: RedirectStatus::Permanent, url: address("gemini://x/") };
    assert_eq!(app.load_site(Ok(redirect)), Err(GeminiError::UnhandledResponseCategory));
    let failure = GeminiResponse::TemporaryFailure {
        status: TemporaryFailureStatus::SlowDown,
        error_msg: Some("wait".to_string()),
    };
    assert_eq!(app.load_site(Ok(failure)), Err(GeminiError::UnhandledResponseCategory));
    assert!(app.is_loading());
    assert_eq!(app.current(), address("gemini://start/"));
}

#[test]
fn a_failed_fetch_stays_a_failure() {
    let mut app = App::new(address("gemini://start/"));
    assert_eq!(app.load_site(Err(GeminiError::TransportError)), Err(GeminiError::TransportError));
    assert_eq!(app.load_site(Err(GeminiError::RedirectLoopError)), Err(GeminiError::RedirectLoopError));
    assert!(app.is_loading());
}

#[test]
fn cancel_while_browsing_quits() {
    let mut app = browsing("gemini://start/", "hello");
    assert_eq!(app.handle(Command::Cancel), Ok(Flow::Quit));
    assert_eq!(app.status(), &AppStatus::Browsing);
}

#[test]
fn scrolling_saturates_at_both_ends() {
    let mut app = browsing("gemini://start/", "hello");
    assert_eq!(app.handle(Command::ScrollUp), Ok(Flow::Continue));
    assert_eq!(app.scroll(), (0, 0));
    assert_eq!(app.handle(Command::ScrollDown), Ok(Flow::Continue));
    assert_eq!(app.handle(Command::ScrollDown), Ok(Flow::Continue));
    assert_eq!(app.scroll(), (2, 0));
    assert_eq!(app.handle(Command::PageDown(40)), Ok(Flow::Continue));
    assert_eq!(app.scroll(), (42, 0));
    assert_eq!(app.handle(Command::PageUp(12)), Ok(Flow::Continue));
    assert_eq!(app.scroll(), (30, 0));
    assert_eq!(app.handle(Command::PageUp(31)), Ok(Flow::Continue));
    assert_eq!(app.scroll(), (0, 0));
    assert_eq!(app.handle(Command::PageDown(65535)), Ok(Flow::Continue));
    assert_eq!(app.scroll(), (65535, 0));
    assert_eq!(app.handle(Command::ScrollDown), Ok(Flow::Continue));
    assert_eq!(app.scroll(), (65535, 0));
    assert_eq!(app.handle(Command::PageDown(7)), Ok(Flow::Continue));
    assert_eq!(app.scroll(), (65535, 0));
    assert_eq!(app.handle(Command::ScrollUp), Ok(Flow::Continue));
    assert_eq!(app.scroll(), (65534, 0));
}

#[test]
fn other_keys_do_nothing_while_browsing() {
    let mut app = browsing("gemini://start/", "hello");
    assert_eq!(app.handle(Command::Char('x')), Ok(Flow::Continue));
    assert_eq!(app.handle(Command::Submit), Ok(Flow::Continue));
    assert_eq!(app.status(), &AppStatus::Browsing);
    assert!(app.content().is_some());
}

#[test]
fn typing_collects_characters_and_cancel_discards_them() {
    let mut app = browsing("gemini://start/", "hello");
    type_line(&mut app, "ab<>i");
    assert_eq!(app.handle(Command::ScrollDown), Ok(Flow::Continue));
    assert_eq!(app.handle(Command::PageUp(3)), Ok(Flow::Continue));
    assert_eq!(app.status(), &AppStatus::Typing("ab<>i".to_string()));
    assert_eq!(app.scroll(), (0, 0));
    assert_eq!(app.handle(Command::Cancel), Ok(Flow::Continue));
    assert_eq!(app.status(), &AppStatus::Browsing);
    assert!(app.content().is_some());
}

#[test]
fn a_number_follows_the_link_of_that_position() {
    let text = "=> gemini://x.com/zero\ntext\n=> one label\n=> /two\n";
    let mut app = browsing("gemini://start/dir/", text);
    assert_eq!(app.handle(Command::ScrollDown), Ok(Flow::Continue));
    type_line(&mut app, "1");
    assert_eq!(app.handle(Command::Submit), Ok(Flow::Continue));
    assert!(app.is_loading());
    assert_eq!(app.current(), address("gemini://start/dir/one"));
    assert_eq!(app.content(), None);
    assert_eq!(app.scroll(), (0, 0));
    assert_eq!(app.load_site(Ok(page(text))), Ok(()));
    assert_eq!(app.handle(Command::Char('<')), Ok(Flow::Continue));
    assert!(app.is_loading());
    assert_eq!(app.current(), address("gemini://start/dir/"));
}

#[test]
fn link_numbers_count_from_zero() {
    let text = "=> gemini://x.com/zero\n=> gemini://x.com/one\n";
    let mut app = browsing("gemini://start/", text);
    type_line(&mut app, "0");
    assert_eq!(app.handle(Command::Submit), Ok(Flow::Continue));
    assert_eq!(app.current(), address("gemini://x.com/zero"));
}

#[test]
fn a_number_without_a_link_does_nothing() {
    let mut app = browsing("gemini://start/", "=> gemini://x.com/zero\n");
    type_line(&mut app, "1");
    assert_eq!(app.handle(Command::Submit), Ok(Flow::Continue));
    assert_eq!(app.status(), &AppStatus::Typing("1".to_string()));
    assert_eq!(app.current(), address("gemini://start/"));
    assert!(app.content().is_some());
}

#[test]
fn a_number_on_a_page_of_bytes_does_nothing() {
    let mut app = App::new(address("gemini://start/"));
    let reply = GeminiResponse::Success { mime: "image/png".to_string(), body: b"=> x".to_vec() };
    assert_eq!(app.load_site(Ok(reply)), Ok(()));
    type_line(&mut app, "0");
    assert_eq!(app.handle(Command::Submit), Ok(Flow::Continue));
    assert_eq!(app.status(), &AppStatus::Typing("0".to_string()));
    assert_eq!(app.current(), address("gemini://start/"));
}

#[test]
fn an_absolute_address_is_visited() {
    let mut app = browsing("gemini://start/", "hello");
    type_line(&mut app, "gemini://other.org/page");
    assert_eq!(app.handle(Command::Submit), Ok(Flow::Continue));
    assert!(app.is_loading());
    assert_eq!(app.current(), address("gemini://other.org/page"));
}

#[test]
fn any_other_line_is_resolved_against_the_current_address() {
    let mut app = browsing("gemini://start/dir/page", "hello");
    type_line(&mut app, "../up");
    assert_eq!(app.handle(Command::Submit), Ok(Flow::Continue));
    assert_eq!(app.current(), address("gemini://start/up"));
    assert_eq!(app.load_site(Ok(page("next"))), Ok(()));
    type_line(&mut app, "https://example.org/");
    assert_eq!(app.handle(Command::Submit), Ok(Flow::Continue));
    assert_eq!(app.current(), address("https://example.org/"));
}

#[test]
fn a_line_that_gives_no_address_is_an_error_and_changes_nothing() {
    let mut app = browsing("gemini://start/", "hello");
    type_line(&mut app, "gemini://[bad");
    assert_eq!(app.handle(Command::Submit), Err(GeminiError::AddressResolutionError));
    assert_eq!(app.status(), &AppStatus::Typing("gemini://[bad".to_string()));
    assert_eq!(app.current(), address("gemini://start/"));
    assert!(app.content().is_some());
    assert_eq!(app.typed_target("http://[bad"), Err(GeminiError::AddressResolutionError));
    assert_eq!(app.typed_target("7"), Ok(None));
    assert_eq!(app.typed_target("x"), Ok(Some(address("gemini://start/x"))));
}

#[test]
fn a_visit_from_a_back_state_overwrites_the_branch() {
    let mut app = browsing("gemini://a/", "hello");
    type_line(&mut app, "gemini://b/");
    assert_eq!(app.handle(Command::Submit), Ok(Flow::Continue));
    assert_eq!(app.load_site(Ok(page("b"))), Ok(()));
    assert_eq!(app.handle(Command::Char('<')), Ok(Flow::Continue));
    assert_eq!(app.current(), address("gemini://a/"));
    assert_eq!(app.load_site(Ok(page("a"))), Ok(()));
    type_line(&mut app, "gemini://d/");
    assert_eq!(app.handle(Command::Submit), Ok(Flow::Continue));
    assert_eq!(app.load_site(Ok(page("d"))), Ok(()));
    assert_eq!(app.handle(Command::Char('>')), Ok(Flow::Continue));
    assert_eq!(app.current(), address("gemini://d/"));
    assert_eq!(app.load_site(Ok(page("d"))), Ok(()));
    assert_eq!(app.handle(Command::Char('<')), Ok(Flow::Continue));
    assert_eq!(app.current(), address("gemini://a/"));
}

#[test]
fn an_answer_replaces_the_question_in_the_history() {
    let mut app = browsing("gemini://start/", "hello");
    type_line(&mut app, "gemini://start/search?old");
    assert_eq!(app.handle(Command::Submit), Ok(Flow::Continue));
    let question = GeminiResponse::Input { status: InputStatus::Normal, prompt: "Term?".to_string() };
    assert_eq!(app.load_site(Ok(question)), Ok(()));
    for c in "wrong".chars() {
        assert_eq!(app.handle(Command::Char(c)), Ok(Flow::Continue));
    }
    assert_eq!(app.status(), &AppStatus::Input("wrong".to_string()));
    assert_eq!(app.handle(Command::Cancel), Ok(Flow::Continue));
    assert_eq!(app.status(), &AppStatus::Input(String::new()));
    assert_eq!(app.handle(Command::ScrollDown), Ok(Flow::Continue));
    for c in "a b".chars() {
        assert_eq!(app.handle(Command::Char(c)), Ok(Flow::Continue));
    }
    assert_eq!(app.handle(Command::Submit), Ok(Flow::Continue));
    assert!(app.is_loading());
    assert_eq!(app.current(), address("gemini://start/search?a%20b"));
    assert_eq!(app.content(), None);
    assert_eq!(app.load_site(Ok(page("results"))), Ok(()));
    assert_eq!(app.handle(Command::Char('<')), Ok(Flow::Continue));
    assert_eq!(app.current(), address("gemini://start/"));
}

#[test]
fn an_answer_on_the_first_page_is_appended() {
    let mut app = App::new(address("gemini://start/search"));
    let question = GeminiResponse::Input { status: InputStatus::Sensitive, prompt: "?".to_string() };
    assert_eq!(app.load_site(Ok(question)), Ok(()));
    assert_eq!(app.handle(Command::Char('x')), Ok(Flow::Continue));
    assert_eq!(app.handle(Command::Submit), Ok(Flow::Continue));
    assert_eq!(app.current(), address("gemini://start/search?x"));
    assert_eq!(app.load_site(Ok(page("results"))), Ok(()));
    assert_eq!(app.handle(Command::Char('<')), Ok(Flow::Continue));
    assert_eq!(app.current(), address("gemini://start/search"));
}
