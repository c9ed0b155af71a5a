//! What the display shows of a page: its lines, with the links numbered in
//! the order in which a typed number selects them.

use vstd::prelude::*;
use url::Url;
use crate::address::url_scheme;
use crate::client::gemini_scheme;
use crate::content::{Body, BodyView, Content, ContentView};
use crate::gemtext::{
    after_first_line, first_line, link_targets, parsed_line, GemTextLine, GemTextParser, LineView,
};
use crate::text::{chars_of, lemma_first_index_found, same_text, starts_with};

verus! {

/// One line of a document as it is shown.
#[derive(Debug, Clone, PartialEq, Eq)]
pub enum PageLine {
    Text(String),
    PreFormatted(String),
    /// A link, with its number, whether it leads to a `gemini` address, its
    /// address and its label.
    Link { number: usize, gemini: bool, url: Url, text: String },
}

/// The mathematical value of a shown line.
pub enum PageLineView {
    Text(Seq<char>),
    PreFormatted(Seq<char>),
    Link { number: nat, gemini: bool, url: Url, text: Seq<char> },
}

impl View for PageLine {
    type V = PageLineView;

    open spec fn view(&self) -> PageLineView {
        match self {
            PageLine::Text(t) => PageLineView::Text(t@),
            PageLine::PreFormatted(t) => PageLineView::PreFormatted(t@),
            PageLine::Link { number, gemini, url, text } => PageLineView::Link {
                number: *number as nat,
                gemini: *gemini,
                url: *url,
                text: text@,
            },
        }
    }
}

/// What is shown of a page.
#[derive(Debug, Clone, PartialEq, Eq)]
pub enum Page {
    /// Nothing was fetched yet.
    Empty,
    /// The body is not text.
    Unsupported,
    /// A text that is shown as it is.
    Plain(String),
    /// A gemtext document, line by line.
    Document(Vec<PageLine>),
}

/// The mathematical value of what is shown of a page.
pub enum PageView {
    Empty,
    Unsupported,
    Plain(Seq<char>),
    Document(Seq<PageLineView>),
}

/// The mathematical values of shown lines.
pub open spec fn line_views(lines: Seq<PageLine>) -> Seq<PageLineView> {
    lines.map_values(|l: PageLine| l@)
}

impl View for Page {
    type V = PageView;

    open spec fn view(&self) -> PageView {
        match self {
            Page::Empty => PageView::Empty,
            Page::Unsupported => PageView::Unsupported,
            Page::Plain(t) => PageView::Plain(t@),
            Page::Document(lines) => PageView::Document(line_views(lines@)),
        }
    }
}

/// The prefix of the media types that are shown as gemtext.
pub open spec fn gemtext_mime() -> Seq<char> {
    seq!['t', 'e', 'x', 't', '/', 'g', 'e', 'm', 'i', 'n', 'i']
}

/// A parsed line as it is shown, where `number` is the number of the next
/// link.
pub open spec fn shown_line(line: LineView, number: nat) -> PageLineView {
    match line {
        LineView::Text(t) => PageLineView::Text(t),
        LineView::PreFormatted(t) => PageLineView::PreFormatted(t),
        LineView::Link { url, text } => PageLineView::Link {
            number,
            gemini: url_scheme(url) == gemini_scheme(),
            url,
            text,
        },
    }
}

/// The lines of a document as they are shown, where `number` is the number
/// of its first link. Lines that fail to parse are left out, and each link
/// has the number that follows that of the link before it.
pub open spec fn shown_lines(text: Seq<char>, base: Url, number: nat) -> Seq<PageLineView>
    decreases text.len(),
{
    if text.len() == 0 {
        Seq::empty()
    } else {
        let rest = after_first_line(text);
        match parsed_line(first_line(text), base) {
            Ok(line) => seq![shown_line(line, number)] + shown_lines(
                rest,
                base,
                if line is Link {
                    number + 1
                } else {
                    number
                },
            ),
            Err(_) => shown_lines(rest, base, number),
        }
    }
}

/// What is shown of a page that was fetched from `base`.
pub open spec fn page_of(content: Option<ContentView>, base: Url) -> PageView {
    match content {
        None => PageView::Empty,
        Some(ContentView { mime, body: BodyView::Binary(_) }) => PageView::Unsupported,
        Some(ContentView { mime, body: BodyView::Text(text) }) => {
            if gemtext_mime().is_prefix_of(mime) {
                PageView::Document(shown_lines(text, base, 0))
            } else {
                PageView::Plain(text)
            }
        },
    }
}

/// The number shown beside a link is the position at which `link_targets`
/// holds the link's address, counted from the number of the first link.
pub proof fn lemma_numbers_select_links(text: Seq<char>, base: Url, number: nat, i: int)
    requires
        0 <= i < shown_lines(text, base, number).len(),
        shown_lines(text, base, number)[i] is Link,
    ensures
        number <= shown_lines(text, base, number)[i]->Link_number < number + link_targets(
            text,
            base,
        ).len(),
        link_targets(text, base)[shown_lines(text, base, number)[i]->Link_number - number]
            == shown_lines(text, base, number)[i]->Link_url,
    decreases text.len(),
{
    lemma_first_index_found(text, |c: char| c == '\n');
    let rest = after_first_line(text);
    match parsed_line(first_line(text), base) {
        Ok(line) => {
            if i > 0 {
                let next: nat = if line is Link {
                    number + 1
                } else {
                    number
                };
                assert(shown_lines(text, base, number)[i] == shown_lines(rest, base, next)[i - 1]);
                lemma_numbers_select_links(rest, base, next, i - 1);
            }
        },
        Err(_) => {
            lemma_numbers_select_links(rest, base, number, i);
        },
    }
}

impl PageLine {
    /// A parsed line as it is shown, where `number` is the number of the
    /// next link.
    pub fn of_line(line: GemTextLine, number: usize) -> (shown: PageLine)
        ensures
            shown@ == shown_line(line@, number as nat),
    {
        match line {
            GemTextLine::Text(t) => PageLine::Text(t),
            GemTextLine::PreFormatted(t) => PageLine::PreFormatted(t),
            GemTextLine::Link { url, text } => {
                proof {
                    reveal_strlit("gemini");
                    assert("gemini"@ =~= gemini_scheme());
                }
                let gemini = same_text(url.scheme(), "gemini");
                PageLine::Link { number, gemini, url, text }
            },
        }
    }
}

impl Page {
    /// The lines of the document `text` as they are shown, with its links
    /// numbered from 0.
    pub fn document(text: &str, base: Url) -> (lines: Vec<PageLine>)
        ensures
            line_views(lines@) == shown_lines(text@, base, 0),
    {
        let mut parser = GemTextParser::new(text, base);
        let mut lines: Vec<PageLine> = Vec::new();
        let mut number: usize = 0;
        assert(line_views(lines@) =~= Seq::<PageLineView>::empty());
        loop
            invariant
                parser@.base == base,
                number <= lines@.len(),
                line_views(lines@) + shown_lines(parser@.remaining, base, number as nat)
                    == shown_lines(text@, base, 0),
            ensures
                line_views(lines@) == shown_lines(text@, base, 0),
            decreases parser@.remaining.len(),
        {
            let ghost before = parser@.remaining;
            let ghost so_far = lines@;
            let ghost first = number as nat;
            proof {
                lemma_first_index_found(before, |c: char| c == '\n');
            }
            match parser.next() {
                None => {
                    assert(line_views(lines@) + Seq::<PageLineView>::empty() =~= line_views(
                        lines@,
                    ));
                    break ;
                },
                Some(Ok(line)) => {
                    let is_link = match line {
                        GemTextLine::Link { .. } => true,
                        _ => false,
                    };
                    let shown = PageLine::of_line(line, number);
                    lines.push(shown);
                    let count = lines.len();
                    if is_link {
                        assert(number < count);
                        number = number + 1;
                    }
                    assert(line_views(lines@) =~= line_views(so_far).push(shown@));
                    assert(line_views(lines@) + shown_lines(parser@.remaining, base, number as nat)
                        =~= line_views(so_far) + shown_lines(before, base, first));
                },
                Some(Err(_)) => {},
            }
        }
        lines
    }

    /// What is shown of `content`, fetched from `base`.
    pub fn of_content(content: Option<&Content>, base: Url) -> (page: Page)
        ensures
            page@ == page_of(
                match content {
                    Some(c) => Some(c@),
                    None => None,
                },
                base,
            ),
    {
        match content {
            None => Page::Empty,
            Some(c) => match &c.body {
                Body::Bytes(_) => Page::Unsupported,
                Body::String(text) => {
                    proof {
                        reveal_strlit("text/gemini");
                        assert("text/gemini"@ =~= gemtext_mime());
                    }
                    let mime = chars_of(c.mime.as_str());
                    if starts_with(mime.as_slice(), "text/gemini") {
                        Page::Document(Page::document(text.as_str(), base))
                    } else {
                        Page::Plain(text.clone())
                    }
                },
            },
        }
    }
}

} // verus!
