//! The session: what is shown, where the user is in the history, and what
//! each command and each reply does to both. Fetching a page is left to the
//! caller: a session that is loading waits for `load_site`.

use vstd::prelude::*;
use vstd::utf8::encode_utf8;
use url::Url;
use crate::address::{has_room, room_for, url_joined, url_parsed, url_with_query};
use crate::content::{classified, Body, BodyView, Content, ContentView};
use crate::error::GeminiError;
use crate::gemtext::{link_targets, GemTextParser};
use crate::client::Client;
use crate::history::{GemspaceNav, NavView};
use crate::page::{lemma_numbers_select_links, page_of, Page, PageView};
use crate::response::{GeminiResponse, ResponseView};
use crate::text::{chars_of, number_of, parse_number, starts_with};

verus! {

/// What the session is doing.
#[derive(Debug, Clone, PartialEq, Eq)]
pub enum AppStatus {
    /// A page is shown and commands move through it.
    Browsing,
    /// The user is typing an address or the number of a link.
    Typing(String),
    /// The page under the cursor has to be fetched.
    Loading,
    /// The server asked a question and the user is typing the answer.
    Input(String),
}

/// The mathematical value of a status.
pub enum StatusView {
    Browsing,
    Typing(Seq<char>),
    Loading,
    Input(Seq<char>),
}

impl View for AppStatus {
    type V = StatusView;

    open spec fn view(&self) -> StatusView {
        match self {
            AppStatus::Browsing => StatusView::Browsing,
            AppStatus::Typing(t) => StatusView::Typing(t@),
            AppStatus::Loading => StatusView::Loading,
            AppStatus::Input(t) => StatusView::Input(t@),
        }
    }
}

impl AppStatus {
    /// The name of a status, as the display shows it.
    pub open spec fn label(&self) -> Seq<char> {
        match self {
            AppStatus::Browsing => "Browsing"@,
            AppStatus::Typing(_) => "Typing"@,
            AppStatus::Loading => "Loading"@,
            AppStatus::Input(_) => "Input"@,
        }
    }

    /// The name of the status, as the display shows it.
    pub fn as_str(&self) -> (r: &'static str)
        ensures
            r@ == self.label(),
    {
        match self {
            AppStatus::Browsing => "Browsing",
            AppStatus::Typing(_) => "Typing",
            AppStatus::Loading => "Loading",
            AppStatus::Input(_) => "Input",
        }
    }
}

/// What the user asks for.
#[derive(Debug, Clone, Copy, PartialEq, Eq, Structural)]
pub enum Command {
    /// Leave: the session while browsing, the line while typing.
    Cancel,
    /// Send the line that was typed.
    Submit,
    /// A character: part of the line while typing, a command while browsing.
    Char(char),
    /// Scroll one row up.
    ScrollUp,
    /// Scroll one row down.
    ScrollDown,
    /// Scroll up by the given number of rows.
    PageUp(u16),
    /// Scroll down by the given number of rows.
    PageDown(u16),
}

/// Whether the session goes on after a command.
#[derive(Debug, Clone, Copy, PartialEq, Eq, Structural)]
pub enum Flow {
    Continue,
    Quit,
}

/// The mathematical value of a session.
pub struct AppView {
    pub nav: NavView,
    pub content: Option<ContentView>,
    pub scroll: (u16, u16),
    pub status: StatusView,
}

/// The prefix of a line that is typed as an address of its own.
pub open spec fn absolute_marker() -> Seq<char> {
    seq!['g', 'e', 'm', 'i', 'n', 'i', ':', '/', '/']
}

/// The media type of the page that shows a server's question.
pub open spec fn prompt_mime() -> Seq<char> {
    seq!['t', 'e', 'x', 't', '/', 'p', 'l', 'a', 'i', 'n']
}

/// `a - b`, or 0 where that is negative.
pub open spec fn minus(a: u16, b: u16) -> u16 {
    if a >= b {
        (a - b) as u16
    } else {
        0
    }
}

/// `a + b`, or the greatest offset where that is too great.
pub open spec fn plus(a: u16, b: u16) -> u16 {
    if a + b <= u16::MAX {
        (a + b) as u16
    } else {
        u16::MAX
    }
}

impl AppView {
    /// The session that has to fetch the page under the cursor of `nav`:
    /// nothing is shown and the scroll offset is back at the top.
    pub open spec fn loading(nav: NavView) -> AppView {
        AppView { nav, content: None, scroll: (0, 0), status: StatusView::Loading }
    }

    /// The session after a visit to `url`.
    pub open spec fn visit(self, url: Url) -> AppView {
        AppView::loading(self.nav.push(url))
    }

    /// The line that the user is typing; empty while none is typed.
    pub open spec fn typed(self) -> Seq<char> {
        match self.status {
            StatusView::Typing(line) => line,
            StatusView::Input(line) => line,
            _ => Seq::empty(),
        }
    }

    /// The session with another status.
    pub open spec fn with_status(self, status: StatusView) -> AppView {
        AppView { status, ..self }
    }

    /// The session with another row offset.
    pub open spec fn scrolled_to(self, row: u16) -> AppView {
        AppView { scroll: (row, self.scroll.1), ..self }
    }

    /// The links of the page that is shown: those of its text, read against
    /// the address under the cursor. A page without a text has none.
    pub open spec fn links(self) -> Seq<Url> {
        match self.content {
            Some(ContentView { mime, body: BodyView::Text(text) }) => link_targets(
                text,
                self.nav.current(),
            ),
            _ => Seq::empty(),
        }
    }

    /// Where a typed line leads. A number is the position of a link of the
    /// page, counted from 0, and leads nowhere where the page has no such
    /// link. A line with the absolute marker is an address of its own. Every
    /// other line is resolved against the address under the cursor.
    pub open spec fn typed_target(self, line: Seq<char>) -> Result<Option<Url>, GeminiError> {
        match number_of(line) {
            Some(n) => if n < self.links().len() {
                Ok(Some(self.links()[n as int]))
            } else {
                Ok(None)
            },
            None => {
                let found = if absolute_marker().is_prefix_of(line) {
                    url_parsed(line)
                } else {
                    url_joined(self.nav.current(), line)
                };
                match found {
                    Some(url) => Ok(Some(url)),
                    None => Err(GeminiError::AddressResolutionError),
                }
            },
        }
    }

    /// What a command does while a page is shown.
    pub open spec fn browse(self, command: Command) -> (AppView, Flow) {
        match command {
            Command::Cancel => (self, Flow::Quit),
            Command::PageUp(step) => (self.scrolled_to(minus(self.scroll.0, step)), Flow::Continue),
            Command::PageDown(step) => (
                self.scrolled_to(plus(self.scroll.0, step)),
                Flow::Continue,
            ),
            Command::ScrollUp => (self.scrolled_to(minus(self.scroll.0, 1)), Flow::Continue),
            Command::ScrollDown => (self.scrolled_to(plus(self.scroll.0, 1)), Flow::Continue),
            Command::Char(c) => if c == 'i' {
                (self.with_status(StatusView::Typing(Seq::empty())), Flow::Continue)
            } else if c == '<' {
                (AppView::loading(self.nav.back()), Flow::Continue)
            } else if c == '>' {
                (AppView::loading(self.nav.advance()), Flow::Continue)
            } else {
                (self, Flow::Continue)
            },
            Command::Submit => (self, Flow::Continue),
        }
    }

    /// What a command does while the user types the line `line`.
    pub open spec fn type_line(self, line: Seq<char>, command: Command) -> Result<
        AppView,
        GeminiError,
    > {
        match command {
            Command::Cancel => Ok(self.with_status(StatusView::Browsing)),
            Command::Char(c) => Ok(self.with_status(StatusView::Typing(line.push(c)))),
            Command::Submit => match self.typed_target(line) {
                Ok(Some(url)) => Ok(self.visit(url)),
                Ok(None) => Ok(self),
                Err(e) => Err(e),
            },
            _ => Ok(self),
        }
    }

    /// What a command does while the user types the answer `line` to a
    /// server's question. The answer becomes the query of the address under
    /// the cursor; the page of the question leaves the history and the
    /// address with the answer takes its place.
    pub open spec fn answer(self, line: Seq<char>, command: Command) -> Result<
        AppView,
        GeminiError,
    > {
        match command {
            Command::Cancel => Ok(self.with_status(StatusView::Input(Seq::empty()))),
            Command::Char(c) => Ok(self.with_status(StatusView::Input(line.push(c)))),
            Command::Submit => if has_room(self.nav.current(), encode_utf8(line).len()) {
                let url = url_with_query(self.nav.current(), Some(line));
                Ok(AppView::loading(self.nav.back().push(url)))
            } else {
                Err(GeminiError::AddressResolutionError)
            },
            _ => Ok(self),
        }
    }

    /// What a command does to a session, and whether the session goes on. A
    /// session that is loading takes no command.
    pub open spec fn after(self, command: Command) -> Result<(AppView, Flow), GeminiError> {
        match self.status {
            StatusView::Loading => Ok((self, Flow::Continue)),
            StatusView::Browsing => Ok(self.browse(command)),
            StatusView::Typing(line) => match self.type_line(line, command) {
                Ok(s) => Ok((s, Flow::Continue)),
                Err(e) => Err(e),
            },
            StatusView::Input(line) => match self.answer(line, command) {
                Ok(s) => Ok((s, Flow::Continue)),
                Err(e) => Err(e),
            },
        }
    }

    /// What the outcome of a fetch does to a session. A success is shown and
    /// browsed; a question is shown as plain text and waits for its answer;
    /// every other reply is not handled, and a failed fetch stays a failure.
    pub open spec fn loaded(self, outcome: Result<ResponseView, GeminiError>) -> Result<
        AppView,
        GeminiError,
    > {
        match outcome {
            Err(e) => Err(e),
            Ok(ResponseView::Success { mime, body }) => match classified(mime, body) {
                Ok(content) => Ok(
                    AppView { content: Some(content), status: StatusView::Browsing, ..self },
                ),
                Err(e) => Err(e),
            },
            Ok(ResponseView::Input { status, prompt }) => Ok(
                AppView {
                    content: Some(
                        ContentView { mime: prompt_mime(), body: BodyView::Text(prompt) },
                    ),
                    status: StatusView::Input(Seq::empty()),
                    ..self
                },
            ),
            Ok(_) => Err(GeminiError::UnhandledResponseCategory),
        }
    }
}

/// The number that is shown beside a link selects that link: typed while
/// the document is shown, it leads to the link's address.
pub proof fn lemma_shown_number_selects_link(s: AppView, line: Seq<char>, i: int)
    requires
        page_of(s.content, s.nav.current()) matches PageView::Document(lines) && 0 <= i
            < lines.len() && lines[i] is Link && number_of(line) == Some(lines[i]->Link_number),
    ensures
        page_of(s.content, s.nav.current()) matches PageView::Document(lines) && s.typed_target(
            line,
        ) == Ok::<Option<Url>, GeminiError>(Some(lines[i]->Link_url)),
{
    match s.content {
        Some(ContentView { mime, body: BodyView::Text(text) }) => {
            lemma_numbers_select_links(text, s.nav.current(), 0, i);
        },
        _ => {},
    }
}

/// The text of the address at which a session starts unless it is given
/// another.
pub open spec fn home_text() -> Seq<char> {
    "gemini://tlgs.one/"@
}

/// The address at which a session starts unless it is given another.
pub fn home() -> (r: Option<Url>)
    ensures
        r == url_parsed(home_text()),
{
    match Url::parse("gemini://tlgs.one/") {
        Ok(url) => Some(url),
        Err(_) => None,
    }
}

/// No command and no reply moves the cursor of the history off its entries.
pub proof fn lemma_steps_keep_history(
    s: AppView,
    command: Command,
    outcome: Result<ResponseView, GeminiError>,
)
    requires
        s.nav.wf(),
    ensures
        s.after(command) matches Ok(next) ==> next.0.nav.wf(),
        s.loaded(outcome) matches Ok(next) ==> next.nav == s.nav,
{
}

/// The mathematical value of what may be shown.
pub open spec fn content_view(content: Option<Content>) -> Option<ContentView> {
    match content {
        Some(c) => Some(c@),
        None => None,
    }
}

/// The mathematical value of the outcome of a fetch.
pub open spec fn outcome_view(outcome: Result<GeminiResponse, GeminiError>) -> Result<
    ResponseView,
    GeminiError,
> {
    match outcome {
        Ok(r) => Ok(r@),
        Err(e) => Err(e),
    }
}

/// The session: the history, the page that is shown, how far it is scrolled,
/// and what the user is doing.
pub struct App {
    gemspaces_nav: GemspaceNav,
    client: Client,
    content: Option<Content>,
    scroll: (u16, u16),
    status: AppStatus,
}

impl View for App {
    type V = AppView;

    closed spec fn view(&self) -> AppView {
        AppView {
            nav: self.gemspaces_nav@,
            content: content_view(self.content),
            scroll: self.scroll,
            status: self.status@,
        }
    }
}

impl App {
    /// A session that has to fetch `start`, with a client that follows
    /// redirects.
    pub fn new(start: Url) -> (app: App)
        ensures
            app@ == AppView::loading(NavView::start(start)),
            app.client_settings() == (true, crate::client::REDIRECT_LIMIT as nat),
    {
        App {
            gemspaces_nav: GemspaceNav::new(start),
            client: Client::new(true),
            content: None,
            scroll: (0, 0),
            status: AppStatus::Loading,
        }
    }

    /// Whether the session's client follows redirects, and how many in a
    /// row.
    pub closed spec fn client_settings(&self) -> (bool, nat) {
        (self.client.follows_redirects(), self.client.limit())
    }

    /// The history of every session has an entry under its cursor.
    pub proof fn lemma_history_wf(&self)
        ensures
            self@.nav.wf(),
    {
        self.gemspaces_nav.lemma_wf();
    }

    /// The client that fetches the pages of the session.
    pub fn client(&self) -> (client: &Client)
        ensures
            (client.follows_redirects(), client.limit()) == self.client_settings(),
    {
        &self.client
    }

    /// What the display shows of the page.
    pub fn page(&self) -> (page: Page)
        ensures
            page@ == page_of(self@.content, self@.nav.current()),
    {
        Page::of_content(self.content.as_ref(), self.gemspaces_nav.current())
    }

    /// The line that the user is typing; empty while none is typed.
    pub fn typed(&self) -> (line: &str)
        ensures
            line@ == self@.typed(),
    {
        match &self.status {
            AppStatus::Typing(line) => line.as_str(),
            AppStatus::Input(line) => line.as_str(),
            _ => {
                proof {
                    reveal_strlit("");
                    assert(""@ =~= Seq::<char>::empty());
                }
                ""
            },
        }
    }

    /// The address under the cursor of the history.
    pub fn current(&self) -> (url: Url)
        ensures
            self@.nav.wf(),
            url == self@.nav.current(),
    {
        self.gemspaces_nav.current()
    }

    /// The page that is shown, if one is.
    pub fn content(&self) -> (c: Option<&Content>)
        ensures
            content_view(
                match c {
                    Some(x) => Some(*x),
                    None => None,
                },
            ) == self@.content,
    {
        self.content.as_ref()
    }

    /// The scroll offset: rows, then columns.
    pub fn scroll(&self) -> (offset: (u16, u16))
        ensures
            offset == self@.scroll,
    {
        self.scroll
    }

    /// What the session is doing.
    pub fn status(&self) -> (status: &AppStatus)
        ensures
            status@ == self@.status,
    {
        &self.status
    }

    /// Whether the page under the cursor has to be fetched.
    pub fn is_loading(&self) -> (b: bool)
        ensures
            b == (self@.status is Loading),
    {
        match self.status {
            AppStatus::Loading => true,
            _ => false,
        }
    }

    /// Forgets what is shown and asks for the page under the cursor.
    fn set_status_to_loading(&mut self)
        ensures
            final(self)@ == AppView::loading(old(self)@.nav),
            final(self).client_settings() == old(self).client_settings(),
    {
        self.scroll = (0, 0);
        self.status = AppStatus::Loading;
        self.content = None;
    }

    /// Visits `url` and asks for its page.
    fn push_url(&mut self, url: Url)
        ensures
            final(self)@ == old(self)@.visit(url),
            final(self).client_settings() == old(self).client_settings(),
    {
        self.gemspaces_nav.push(url);
        self.set_status_to_loading();
    }

    /// Where the typed line `line` leads.
    pub fn typed_target(&self, line: &str) -> (r: Result<Option<Url>, GeminiError>)
        ensures
            r == self@.typed_target(line@),
    {
        let v = chars_of(line);
        match parse_number(v.as_slice()) {
            Some(n) => {
                let links = match &self.content {
                    Some(content) => match &content.body {
                        Body::String(text) => GemTextParser::links(
                            text.as_str(),
                            self.gemspaces_nav.current(),
                        ),
                        Body::Bytes(_) => Vec::new(),
                    },
                    None => Vec::new(),
                };
                assert(links@ == self@.links());
                if n < links.len() {
                    Ok(Some(links[n].clone()))
                } else {
                    Ok(None)
                }
            },
            None => {
                proof {
                    reveal_strlit("gemini://");
                    assert("gemini://"@ =~= absolute_marker());
                }
                let found = if starts_with(v.as_slice(), "gemini://") {
                    Url::parse(line)
                } else {
                    self.gemspaces_nav.current().join(line)
                };
                match found {
                    Ok(url) => Ok(Some(url)),
                    Err(_) => Err(GeminiError::AddressResolutionError),
                }
            },
        }
    }

    /// Takes the outcome of the fetch of the page under the cursor. On an
    /// error the session is as it was.
    pub fn load_site(&mut self, outcome: Result<GeminiResponse, GeminiError>) -> (r: Result<
        (),
        GeminiError,
    >)
        ensures
            match r {
                Ok(_) => old(self)@.loaded(outcome_view(outcome)) == Ok::<AppView, GeminiError>(
                    final(self)@,
                ),
                Err(e) => old(self)@.loaded(outcome_view(outcome)) == Err::<AppView, GeminiError>(e)
                    && final(self)@ == old(self)@,
            },
            final(self).client_settings() == old(self).client_settings(),
    {
        match outcome {
            Err(e) => Err(e),
            Ok(GeminiResponse::Success { mime, body }) => {
                match Content::from_mime_and_bytes(mime, body) {
                    Ok(content) => {
                        self.content = Some(content);
                        self.status = AppStatus::Browsing;
                        Ok(())
                    },
                    Err(e) => Err(e),
                }
            },
            Ok(GeminiResponse::Input { status, prompt }) => {
                proof {
                    reveal_strlit("text/plain");
                    assert("text/plain"@ =~= prompt_mime());
                }
                self.content = Some(
                    Content { mime: "text/plain".to_owned(), body: Body::String(prompt) },
                );
                self.status = AppStatus::Input(String::new());
                Ok(())
            },
            Ok(_) => Err(GeminiError::UnhandledResponseCategory),
        }
    }

    /// Carries out a command. On an error the session is as it was.
    pub fn handle(&mut self, command: Command) -> (r: Result<Flow, GeminiError>)
        ensures
            match r {
                Ok(flow) => old(self)@.after(command) == Ok::<(AppView, Flow), GeminiError>(
                    (final(self)@, flow),
                ),
                Err(e) => old(self)@.after(command) == Err::<(AppView, Flow), GeminiError>(e)
                    && final(self)@ == old(self)@,
            },
            final(self).client_settings() == old(self).client_settings(),
    {
        let mut status = AppStatus::Loading;
        std::mem::swap(&mut self.status, &mut status);
        match status {
            AppStatus::Loading => Ok(Flow::Continue),
            AppStatus::Browsing => {
                self.status = AppStatus::Browsing;
                Ok(self.browse(command))
            },
            AppStatus::Typing(line) => {
                let mut line = line;
                match command {
                    Command::Cancel => {
                        self.status = AppStatus::Browsing;
                    },
                    Command::Char(c) => {
                        line.push(c);
                        self.status = AppStatus::Typing(line);
                    },
                    Command::Submit => {
                        self.status = AppStatus::Typing(line);
                        let target = match &self.status {
                            AppStatus::Typing(typed) => self.typed_target(typed.as_str()),
                            _ => Ok(None),
                        };
                        match target {
                            Ok(Some(url)) => {
                                self.push_url(url);
                            },
                            Ok(None) => {},
                            Err(e) => {
                                return Err(e);
                            },
                        }
                    },
                    _ => {
                        self.status = AppStatus::Typing(line);
                    },
                }
                Ok(Flow::Continue)
            },
            AppStatus::Input(line) => {
                let mut line = line;
                match command {
                    Command::Cancel => {
                        self.status = AppStatus::Input(String::new());
                    },
                    Command::Char(c) => {
                        line.push(c);
                        self.status = AppStatus::Input(line);
                    },
                    Command::Submit => {
                        let mut url = self.gemspaces_nav.current();
                        if !room_for(&url, line.as_str()) {
                            self.status = AppStatus::Input(line);
                            return Err(GeminiError::AddressResolutionError);
                        }
                        url.set_query(Some(line.as_str()));
                        self.gemspaces_nav.back();
                        self.push_url(url);
                    },
                    _ => {
                        self.status = AppStatus::Input(line);
                    },
                }
                Ok(Flow::Continue)
            },
        }
    }

    /// Carries out a command while a page is shown.
    fn browse(&mut self, command: Command) -> (flow: Flow)
        requires
            old(self)@.status is Browsing,
        ensures
            (final(self)@, flow) == old(self)@.browse(command),
            final(self).client_settings() == old(self).client_settings(),
    {
        match command {
            Command::Cancel => {
                return Flow::Quit;
            },
            Command::PageUp(step) => {
                self.scroll.0 = self.scroll.0.saturating_sub(step);
            },
            Command::PageDown(step) => {
                self.scroll.0 = self.scroll.0.saturating_add(step);
            },
            Command::ScrollUp => {
                self.scroll.0 = self.scroll.0.saturating_sub(1);
            },
            Command::ScrollDown => {
                self.scroll.0 = self.scroll.0.saturating_add(1);
            },
            Command::Char(c) => {
                if c == 'i' {
                    self.status = AppStatus::Typing(String::new());
                } else if c == '<' {
                    self.gemspaces_nav.back();
                    self.set_status_to_loading();
                } else if c == '>' {
                    self.gemspaces_nav.advance();
                    self.set_status_to_loading();
                }
            },
            Command::Submit => {},
        }
        Flow::Continue
    }
}

} // verus!
