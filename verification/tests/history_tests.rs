use taurus::history::GemspaceNav;
use url::Url;

fn address(text: &str) -> Url {
    Url::parse(text).unwrap()
}

#[test]
fn current() {
    let url = Url::parse("gemini://test.com/").unwrap();
    let nav = GemspaceNav::new(url.clone());
    assert_eq!(url, nav.current());
}

#[test]
fn push_back_advance() {
    let url_1 = Url::parse("gemini://test.com/1").unwrap();
    let url_2 = Url::parse("gemini://test.com/2").unwrap();
    let url_3 = Url::parse("gemini://test.com/3").unwrap();
    let mut nav = GemspaceNav::new(url_1.clone());
    assert_eq!(url_1, nav.current());
    nav.push(url_2.clone());
    assert_eq!(url_2, nav.current());
    nav.back();
    assert_eq!(url_1, nav.current());
    nav.push(url_3.clone());
    assert_eq!(url_3, nav.current());
    nav.back();
    assert_eq!(url_1, nav.current());
    nav.advance();
    assert_eq!(url_3, nav.current());
    nav.advance();
    assert_eq!(url_3, nav.current());
}

#[test]
fn pushes_end_on_the_last_address() {
    let mut nav = GemspaceNav::new(address("gemini://test.com/0"));
    let mut last = address("gemini://test.com/0");
    for i in 1..=6 {
        last = address(&format!("gemini://test.com/{i}"));
        nav.push(last.clone());
        assert_eq!(last, nav.current());
    }
    nav.back();
    assert_eq!(address("gemini://test.com/5"), nav.current());
    nav.advance();
    assert_eq!(last, nav.current());
}

#[test]
fn push_from_a_back_state_overwrites_the_branch() {
    let a = address("gemini://test.com/a");
    let b = address("gemini://test.com/b");
    let d = address("gemini://test.com/d");
    let mut nav = GemspaceNav::new(a.clone());
    nav.push(b.clone());
    assert_eq!(b, nav.current());
    nav.back();
    assert_eq!(a, nav.current());
    nav.push(d.clone());
    assert_eq!(d, nav.current());
    // Two entries are left: one step back reaches the first, and from it one
    // step on reaches the new address, never the overwritten one.
    nav.back();
    assert_eq!(a, nav.current());
    nav.back();
    assert_eq!(a, nav.current());
    nav.advance();
    assert_eq!(d, nav.current());
    nav.advance();
    assert_eq!(d, nav.current());
}

#[test]
fn back_at_the_first_and_advance_at_the_last_change_nothing() {
    let a = address("gemini://test.com/a");
    let b = address("gemini://test.com/b");
    let mut nav = GemspaceNav::new(a.clone());
    nav.back();
    assert_eq!(a, nav.current());
    nav.advance();
    assert_eq!(a, nav.current());
    nav.push(b.clone());
    nav.advance();
    assert_eq!(b, nav.current());
    nav.back();
    nav.back();
    assert_eq!(a, nav.current());
}

#[test]
fn the_same_address_may_be_visited_twice() {
    let a = address("gemini://test.com/a");
    let mut nav = GemspaceNav::new(a.clone());
    nav.push(a.clone());
    nav.push(a.clone());
    nav.back();
    nav.back();
    nav.back();
    nav.advance();
    nav.advance();
    nav.advance();
    assert_eq!(a, nav.current());
}
