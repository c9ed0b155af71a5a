//! The client's side of one exchange: what to send for an address, and what
//! to do with the reply. Connecting, writing and reading are left to the
//! caller.

use vstd::prelude::*;
use vstd::utf8::encode_utf8;
use url::Url;
use crate::address::{
    has_room, room_for_bytes, url_host, url_path, url_port, url_scheme, url_text, url_with_path,
};
use crate::error::GeminiError;
use crate::response::{reply_of, GeminiResponse, ResponseView};
use crate::text::same_text;

verus! {

/// The port of an address that names none.
pub const DEFAULT_PORT: u16 = 1965;

/// Redirects in a row that a client follows unless it is told otherwise.
pub const REDIRECT_LIMIT: u32 = 5;

/// The scheme of the addresses that a client asks for.
pub open spec fn gemini_scheme() -> Seq<char> {
    seq!['g', 'e', 'm', 'i', 'n', 'i']
}

/// The path that stands in for an empty one.
pub open spec fn root_path() -> Seq<char> {
    seq!['/']
}

/// What is sent, and where to.
#[derive(Debug, Clone, PartialEq, Eq)]
pub struct Request {
    pub host: String,
    pub port: u16,
    pub line: Vec<u8>,
}

/// The mathematical value of a `Request`.
pub struct RequestView {
    pub host: Seq<char>,
    pub port: u16,
    pub line: Seq<u8>,
}

impl View for Request {
    type V = RequestView;

    open spec fn view(&self) -> RequestView {
        RequestView { host: self.host@, port: self.port, line: self.line@ }
    }
}

/// The address that is asked for: `url`, with the root for an empty path.
pub open spec fn asked_address(url: Url) -> Url {
    if url_path(url).len() == 0 {
        url_with_path(url, root_path())
    } else {
        url
    }
}

/// The request line for an address: its text, then CR and LF.
pub open spec fn request_line(url: Url) -> Seq<u8> {
    encode_utf8(url_text(url)) + seq![0x0du8, 0x0au8]
}

/// The request for an address. An address of another scheme is refused, then
/// one without a host, then one whose empty path cannot be replaced because
/// the address is too long.
pub open spec fn request_for(url: Url) -> Result<RequestView, GeminiError> {
    if url_scheme(url) != gemini_scheme() {
        Err(GeminiError::SchemeError)
    } else if url_host(url) is None {
        Err(GeminiError::AddressError)
    } else if url_path(url).len() == 0 && !has_room(url, 1) {
        Err(GeminiError::AddressResolutionError)
    } else {
        Ok(
            RequestView {
                host: url_host(url)->0,
                port: match url_port(url) {
                    Some(p) => p,
                    None => DEFAULT_PORT,
                },
                line: request_line(asked_address(url)),
            },
        )
    }
}

/// What to do once a reply is classified.
#[derive(Debug, Clone, PartialEq, Eq)]
pub enum Step {
    /// Hand the reply to the caller.
    Deliver(GeminiResponse),
    /// Ask for this address instead.
    Follow(Url),
}

/// The mathematical value of a `Step`.
pub enum StepView {
    Deliver(ResponseView),
    Follow(Url),
}

impl View for Step {
    type V = StepView;

    open spec fn view(&self) -> StepView {
        match self {
            Step::Deliver(response) => StepView::Deliver(response@),
            Step::Follow(url) => StepView::Follow(*url),
        }
    }
}

/// What happened in an exchange: it starts with an address, and then replies
/// come in, each as its status token and the bytes read behind it.
#[derive(Debug, Clone, PartialEq, Eq)]
pub enum Event {
    Start(Url),
    Reply { token: Vec<u8>, rest: Vec<u8> },
}

/// The mathematical value of an `Event`.
pub enum EventView {
    Start(Url),
    Reply { token: Seq<u8>, rest: Seq<u8> },
}

impl View for Event {
    type V = EventView;

    open spec fn view(&self) -> EventView {
        match self {
            Event::Start(url) => EventView::Start(*url),
            Event::Reply { token, rest } => EventView::Reply { token: token@, rest: rest@ },
        }
    }
}

/// What the caller has to do next in an exchange.
#[derive(Debug, Clone, PartialEq, Eq)]
pub enum Action {
    /// Open a connection, send the request and come back with the reply.
    Send(Request),
    /// The exchange is over: this is the reply.
    Deliver(GeminiResponse),
    /// The exchange is over: it failed.
    Fail(GeminiError),
}

/// The mathematical value of an `Action`.
pub enum ActionView {
    Send(RequestView),
    Deliver(ResponseView),
    Fail(GeminiError),
}

impl View for Action {
    type V = ActionView;

    open spec fn view(&self) -> ActionView {
        match self {
            Action::Send(request) => ActionView::Send(request@),
            Action::Deliver(response) => ActionView::Deliver(response@),
            Action::Fail(e) => ActionView::Fail(*e),
        }
    }
}

/// The redirects followed so far in one exchange.
pub struct Exchange {
    hops: u32,
}

impl View for Exchange {
    type V = nat;

    closed spec fn view(&self) -> nat {
        self.hops as nat
    }
}

/// The client's settings: whether it follows redirects, and how many in a
/// row.
pub struct Client {
    auto_redirect: bool,
    redirect_limit: u32,
}

/// The step for a reply: a redirect is followed where the client follows
/// redirects and has followed fewer than its limit; at the limit it is a
/// redirect loop; every other reply, and every redirect where the client does
/// not follow them, is delivered.
pub open spec fn step_for(auto_redirect: bool, limit: nat, hops: nat, response: ResponseView) -> Result<
    StepView,
    GeminiError,
> {
    match response {
        ResponseView::Redirect { status, url } => {
            if !auto_redirect {
                Ok(StepView::Deliver(response))
            } else if hops < limit {
                Ok(StepView::Follow(url))
            } else {
                Err(GeminiError::RedirectLoopError)
            }
        },
        _ => Ok(StepView::Deliver(response)),
    }
}

/// The action that asks for `url`, or fails where it cannot be asked for.
pub open spec fn ask(url: Url) -> ActionView {
    match request_for(url) {
        Ok(request) => ActionView::Send(request),
        Err(e) => ActionView::Fail(e),
    }
}

/// The count of redirects followed and the action after an event. At the
/// start the address is asked for. A reply is classified; a redirect that is
/// followed is counted and its address is asked for; any other reply is
/// delivered; every error ends the exchange.
pub open spec fn next_action(auto_redirect: bool, limit: nat, hops: nat, event: EventView) -> (
    nat,
    ActionView,
) {
    match event {
        EventView::Start(url) => (hops, ask(url)),
        EventView::Reply { token, rest } => match reply_of(token, rest) {
            Err(e) => (hops, ActionView::Fail(e)),
            Ok(response) => match step_for(auto_redirect, limit, hops, response) {
                Ok(StepView::Follow(url)) => (hops + 1, ask(url)),
                Ok(StepView::Deliver(delivered)) => (hops, ActionView::Deliver(delivered)),
                Err(e) => (hops, ActionView::Fail(e)),
            },
        },
    }
}

/// An exchange follows no more redirects than the limit: the count never
/// passes the limit, and a reply leads to a new request only where the count
/// goes up by one.
pub proof fn lemma_redirects_are_bounded(
    auto_redirect: bool,
    limit: nat,
    hops: nat,
    event: EventView,
)
    requires
        hops <= limit,
    ensures
        next_action(auto_redirect, limit, hops, event).0 <= limit,
        event is Reply && next_action(auto_redirect, limit, hops, event).1 is Send ==> next_action(
            auto_redirect,
            limit,
            hops,
            event,
        ).0 == hops + 1,
        hops == limit && event is Reply ==> !(next_action(auto_redirect, limit, hops, event).1
            is Send),
{
}

impl Client {
    /// Whether the client follows redirects.
    pub closed spec fn follows_redirects(&self) -> bool {
        self.auto_redirect
    }

    /// How many redirects in a row the client follows.
    pub closed spec fn limit(&self) -> nat {
        self.redirect_limit as nat
    }

    /// A client that follows up to `REDIRECT_LIMIT` redirects in a row, or
    /// none.
    pub fn new(auto_redirect: bool) -> (client: Client)
        ensures
            client.follows_redirects() == auto_redirect,
            client.limit() == REDIRECT_LIMIT,
    {
        Client { auto_redirect, redirect_limit: REDIRECT_LIMIT }
    }

    /// A client that follows up to `redirect_limit` redirects in a row.
    pub fn with_redirect_limit(redirect_limit: u32) -> (client: Client)
        ensures
            client.follows_redirects(),
            client.limit() == redirect_limit,
    {
        Client { auto_redirect: true, redirect_limit }
    }

    /// Whether the client follows redirects.
    pub fn auto_redirect(&self) -> (b: bool)
        ensures
            b == self.follows_redirects(),
    {
        self.auto_redirect
    }

    /// How many redirects in a row the client follows.
    pub fn redirect_limit(&self) -> (n: u32)
        ensures
            n == self.limit(),
    {
        self.redirect_limit
    }

    /// What to send for `url`, and where to.
    pub fn prepare(&self, url: Url) -> (r: Result<Request, GeminiError>)
        ensures
            match r {
                Ok(request) => request_for(url) == Ok::<RequestView, GeminiError>(request@),
                Err(e) => request_for(url) == Err::<RequestView, GeminiError>(e),
            },
    {
        let mut asked = url;
        proof {
            reveal_strlit("gemini");
            reveal_strlit("/");
            assert("gemini"@ =~= gemini_scheme());
            assert("/"@ =~= root_path());
        }
        if !same_text(asked.scheme(), "gemini") {
            return Err(GeminiError::SchemeError);
        }
        let host = match asked.host_str() {
            Some(h) => h.to_owned(),
            None => {
                return Err(GeminiError::AddressError);
            },
        };
        let port = match asked.port() {
            Some(p) => p,
            None => DEFAULT_PORT,
        };
        if asked.path().is_empty() {
            if !room_for_bytes(&asked, 1) {
                return Err(GeminiError::AddressResolutionError);
            }
            asked.set_path("/");
        }
        let mut line = vstd::slice::slice_to_vec(asked.as_str().as_bytes());
        line.push(0x0d);
        line.push(0x0a);
        assert(line@ =~= request_line(asked));
        Ok(Request { host, port, line })
    }

    /// An exchange in which no redirect was followed yet.
    pub fn begin(&self) -> (exchange: Exchange)
        ensures
            exchange@ == 0,
    {
        Exchange { hops: 0 }
    }

    /// Decides what to do with a classified reply, and counts the redirect
    /// where one is followed.
    pub fn settle(&self, exchange: &mut Exchange, response: GeminiResponse) -> (r: Result<
        Step,
        GeminiError,
    >)
        ensures
            match r {
                Ok(step) => step_for(
                    self.follows_redirects(),
                    self.limit(),
                    old(exchange)@,
                    response@,
                ) == Ok::<StepView, GeminiError>(step@),
                Err(e) => step_for(
                    self.follows_redirects(),
                    self.limit(),
                    old(exchange)@,
                    response@,
                ) == Err::<StepView, GeminiError>(e),
            },
            r matches Ok(Step::Deliver(delivered)) ==> delivered == response,
            final(exchange)@ == if r is Ok && r->Ok_0 is Follow {
                old(exchange)@ + 1
            } else {
                old(exchange)@
            },
            old(exchange)@ <= self.limit() ==> final(exchange)@ <= self.limit(),
    {
        if !self.auto_redirect {
            return Ok(Step::Deliver(response));
        }
        match response {
            GeminiResponse::Redirect { status, url } => {
                if exchange.hops < self.redirect_limit {
                    exchange.hops = exchange.hops + 1;
                    Ok(Step::Follow(url))
                } else {
                    Err(GeminiError::RedirectLoopError)
                }
            },
            other => Ok(Step::Deliver(other)),
        }
    }

    /// Takes an event of an exchange and says what to do next.
    pub fn step(&self, exchange: &mut Exchange, event: Event) -> (action: Action)
        ensures
            (final(exchange)@, action@) == next_action(
                self.follows_redirects(),
                self.limit(),
                old(exchange)@,
                event@,
            ),
            old(exchange)@ <= self.limit() ==> final(exchange)@ <= self.limit(),
    {
        let url = match event {
            Event::Start(url) => url,
            Event::Reply { token, rest } => {
                let response = match GeminiResponse::classify(token.as_slice(), rest) {
                    Ok(response) => response,
                    Err(e) => {
                        return Action::Fail(e);
                    },
                };
                match self.settle(exchange, response) {
                    Ok(Step::Follow(url)) => url,
                    Ok(Step::Deliver(delivered)) => {
                        return Action::Deliver(delivered);
                    },
                    Err(e) => {
                        return Action::Fail(e);
                    },
                }
            },
        };
        match self.prepare(url) {
            Ok(request) => Action::Send(request),
            Err(e) => Action::Fail(e),
        }
    }
}

} // verus!
